# aws-why

Explains failed AWS CLI commands, and simulates whether IAM actions are allowed.

`src/` is a library that Verus verifies. It decides what a failure is, which
diagnostic call to make next, what to believe of the answers and what to tell the
user. It makes no call itself: a call is handed out as a value, and its reply is
handed back.

`app/` is the command line tool around it: processes, temporary files, HTTPS,
JSON output and arguments.

## The modules of `src/`

| Module | What it holds |
| --- | --- |
| `text`, `sorting` | Operations on texts, over sequences of characters |
| `json` | JSON documents and the questions that are asked of them |
| `outside` | What is trusted of `regex`, `serde_json` and `std` |
| `redaction` | What is taken out of every text that is shown |
| `model` | Identities, results, remedies and reports |
| `runner` | What is kept of the output of a command |
| `context` | The command that failed, as far as diagnostics depend on it |
| `errors` | What the AWS CLI says about a failure |
| `evaluations` | What AWS says about the evaluation of a request |
| `diagnosis` | The search for the cause of a denial, strongest evidence first |
| `analysis` | The report on a failed command, and the validation of its policies |
| `simulation` | The simulation of every action on every resource |
| `permissions` | Names of actions and resources, and AWS's public reference |
| `commands` | What `run`, `can` and `permissions` decide |
| `output` | The texts that people read |
| `phrases`, `clean_text` | Proofs that those texts cannot steer a terminal |
| `aws` | The AWS side of the library under one name |

Proof functions whose names start with `law_` state what holds of the library as
a whole.
