//! The AWS CLI command that failed, as far as diagnostics depend on it.
use vstd::prelude::*;

use crate::outside::{ends_path, file_name, is_file_name, is_portable_path, last_component};
use crate::text::{
    begins_with, behind_prefix, copy_option, lemma_last_index_of, lemma_texts_push, occurs_at,
    opt_str, opt_text, same_text, starts_with, strip_prefix, strs, texts,
};

verus! {

/// With which profile and region a command runs, on which service, and whether
/// it signs its requests and sends them to AWS. Without an executable it is no
/// command of the AWS CLI.
#[derive(Debug)]
pub struct AwsCommandContext {
    pub executable: Option<String>,
    pub profile: Option<String>,
    pub region: Option<String>,
    pub service: Option<String>,
    pub no_sign_request: bool,
    pub explicit_endpoint: bool,
}

pub struct ContextView {
    pub executable: Option<Seq<char>>,
    pub profile: Option<Seq<char>>,
    pub region: Option<Seq<char>>,
    pub service: Option<Seq<char>>,
    pub no_sign_request: bool,
    pub explicit_endpoint: bool,
}

impl View for AwsCommandContext {
    type V = ContextView;

    open spec fn view(&self) -> ContextView {
        ContextView {
            executable: opt_text(self.executable),
            profile: opt_text(self.profile),
            region: opt_text(self.region),
            service: opt_text(self.service),
            no_sign_request: self.no_sign_request,
            explicit_endpoint: self.explicit_endpoint,
        }
    }
}

/// No command of the AWS CLI.
pub open spec fn no_context() -> ContextView {
    ContextView {
        executable: None,
        profile: None,
        region: None,
        service: None,
        no_sign_request: false,
        explicit_endpoint: false,
    }
}

/// The options of the AWS CLI, but `--profile` and `--region`, whose value is the
/// next argument.
pub open spec fn is_value_option(arg: Seq<char>) -> bool {
    ||| arg == "--endpoint-url"@
    ||| arg == "--ca-bundle"@
    ||| arg == "--output"@
    ||| arg == "--query"@
    ||| arg == "--cli-connect-timeout"@
    ||| arg == "--cli-read-timeout"@
    ||| arg == "--color"@
    ||| arg == "--cli-error-format"@
}

/// What is known after the argument at `at`, and how many arguments were read.
pub open spec fn read_argument(argv: Seq<Seq<char>>, at: int, known: ContextView) -> (
    ContextView,
    int,
) {
    let arg = argv[at];
    let next = if at + 1 < argv.len() {
        Some(argv[at + 1])
    } else {
        None
    };
    if behind_prefix(arg, "--profile="@) is Some {
        (ContextView { profile: behind_prefix(arg, "--profile="@), ..known }, 1)
    } else if behind_prefix(arg, "--region="@) is Some {
        (ContextView { region: behind_prefix(arg, "--region="@), ..known }, 1)
    } else if arg == "--no-sign-request"@ {
        (ContextView { no_sign_request: true, ..known }, 1)
    } else if arg == "--endpoint-url"@ {
        (ContextView { explicit_endpoint: true, ..known }, 2)
    } else if begins_with(arg, "--endpoint-url="@) {
        (ContextView { explicit_endpoint: true, ..known }, 1)
    } else if arg == "--profile"@ {
        if next is Some {
            (ContextView { profile: next, ..known }, 2)
        } else {
            (known, 1)
        }
    } else if arg == "--region"@ {
        if next is Some {
            (ContextView { region: next, ..known }, 2)
        } else {
            (known, 1)
        }
    } else if is_value_option(arg) {
        (known, 2)
    } else if !begins_with(arg, "-"@) && known.service is None {
        (ContextView { service: Some(arg), ..known }, 1)
    } else {
        (known, 1)
    }
}

/// What is known once all arguments from `at` on have been read.
pub open spec fn read_arguments(argv: Seq<Seq<char>>, at: int, known: ContextView) -> ContextView
    decreases argv.len() - at + 1,
{
    if at < 0 || at >= argv.len() {
        known
    } else {
        let (next, used) = read_argument(argv, at, known);
        read_arguments(argv, at + used, next)
    }
}

/// What the arguments of a command say, where `name` is the file name of its
/// executable. Only `aws` itself is a command of the AWS CLI.
pub open spec fn context_of(argv: Seq<Seq<char>>, name: Option<Seq<char>>) -> ContextView {
    if argv.len() == 0 {
        no_context()
    } else {
        let called = match name {
            Some(n) => n,
            None => argv[0],
        };
        if called == "aws"@ || called == "aws.exe"@ {
            read_arguments(
                argv,
                1,
                ContextView { executable: Some(argv[0]), ..no_context() },
            )
        } else {
            no_context()
        }
    }
}

impl ContextView {
    /// Why no diagnostic call may be made.
    pub open spec fn block_reason(self) -> Option<Seq<char>> {
        if self.no_sign_request {
            Some(
                "Follow-up diagnostics were skipped because the command used --no-sign-request."@,
            )
        } else if self.explicit_endpoint {
            Some(
                "Follow-up diagnostics were skipped because the command used a custom endpoint."@,
            )
        } else {
            None
        }
    }

    /// Where the credentials of the command came from. `aws_profile` is the
    /// profile that the environment names.
    pub open spec fn credential_hint(self, aws_profile: Option<Seq<char>>) -> Seq<char> {
        if self.no_sign_request {
            "unsigned request (--no-sign-request)"@
        } else if self.profile is Some {
            "AWS CLI --profile "@ + self.profile.unwrap()
        } else if aws_profile is Some {
            "AWS_PROFILE="@ + aws_profile.unwrap()
        } else {
            "AWS default credential chain"@
        }
    }

    /// The options that a diagnostic call has in common with the command.
    pub open spec fn shared_options(self) -> Seq<Seq<char>> {
        let profile = match self.profile {
            Some(name) => seq!["--profile"@, name],
            None => Seq::empty(),
        };
        let region = match self.region {
            Some(name) => seq!["--region"@, name],
            None => Seq::empty(),
        };
        profile + region
    }

    /// The arguments of a diagnostic call.
    pub open spec fn args_for(self, command: Seq<Seq<char>>) -> Seq<Seq<char>> {
        self.shared_options() + command
    }
}

/// Whether the value of the option is the next argument.
pub fn takes_global_value(arg: &str) -> (r: bool)
    ensures
        r == is_value_option(arg@),
        r <==> arg@ == "--endpoint-url"@ || arg@ == "--ca-bundle"@ || arg@ == "--output"@ || arg@
            == "--query"@ || arg@ == "--cli-connect-timeout"@ || arg@ == "--cli-read-timeout"@
            || arg@ == "--color"@ || arg@ == "--cli-error-format"@,
{
    same_text(arg, "--endpoint-url") || same_text(arg, "--ca-bundle") || same_text(arg, "--output")
        || same_text(arg, "--query") || same_text(arg, "--cli-connect-timeout") || same_text(
        arg,
        "--cli-read-timeout",
    ) || same_text(arg, "--color") || same_text(arg, "--cli-error-format")
}

impl Default for AwsCommandContext {
    fn default() -> (r: Self)
        ensures
            r@ == no_context(),
    {
        AwsCommandContext {
            executable: None,
            profile: None,
            region: None,
            service: None,
            no_sign_request: false,
            explicit_endpoint: false,
        }
    }
}

impl AwsCommandContext {
    /// The context of diagnostic calls that belong to no command.
    pub fn for_diagnostics(
        executable: String,
        profile: Option<String>,
        region: Option<String>,
    ) -> (r: Self)
        ensures
            r@ == (ContextView {
                executable: Some(executable@),
                profile: opt_text(profile),
                region: opt_text(region),
                ..no_context()
            }),
    {
        AwsCommandContext {
            executable: Some(executable),
            profile,
            region,
            service: None,
            no_sign_request: false,
            explicit_endpoint: false,
        }
    }

    /// What the arguments of a command say, the name of the executable first.
    pub fn from_argv(argv: &[String]) -> (r: Self)
        ensures
            argv@.len() == 0 ==> r@ == no_context(),
            argv@.len() > 0 ==> exists|name: Option<Seq<char>>| #[trigger]
                is_file_name(argv@[0]@, name) && r@ == context_of(texts(argv@), name),
            argv@.len() > 0 && is_portable_path(argv@[0]@) ==> r@ == context_of(
                texts(argv@),
                Some(last_component(argv@[0]@)),
            ),
            argv@.len() > 0 && is_portable_path(argv@[0]@) ==> (r@.executable is Some
                <==> is_cli_name(last_component(argv@[0]@))),
            !names_cli(texts(argv@)) ==> r@ == no_context(),
            r@.executable is Some ==> argv@.len() > 0 && (ends_path(argv@[0]@, "aws"@) || ends_path(
                argv@[0]@,
                "aws.exe"@,
            )),
    {
        if argv.len() == 0 {
            return AwsCommandContext::default();
        }
        let name = file_name(argv[0].as_str());
        proof {
            assert(is_file_name(argv@[0]@, opt_text(name)));
            assert(texts(argv@)[0] == argv@[0]@);
            if is_portable_path(argv@[0]@) {
                law_commands_are_recognized_by_the_last_component(texts(argv@), opt_text(name));
            }
            if !names_cli(texts(argv@)) {
                law_other_executables_are_not_recognized(texts(argv@), opt_text(name));
            }
        }
        AwsCommandContext::from_named_argv(argv, &name)
    }

    /// What the arguments of a command say, where `name` is the file name of its
    /// executable.
    pub fn from_named_argv(argv: &[String], name: &Option<String>) -> (r: Self)
        ensures
            r@ == context_of(texts(argv@), opt_text(*name)),
    {
        if argv.len() == 0 {
            return AwsCommandContext::default();
        }
        let ghost all = texts(argv@);
        let executable = &argv[0];
        let called = match name {
            Some(n) => n.as_str(),
            None => executable.as_str(),
        };
        if !same_text(called, "aws") && !same_text(called, "aws.exe") {
            return AwsCommandContext::default();
        }
        let mut context = AwsCommandContext {
            executable: Some(executable.clone()),
            profile: None,
            region: None,
            service: None,
            no_sign_request: false,
            explicit_endpoint: false,
        };
        let mut at: usize = 1;
        while at < argv.len()
            invariant
                1 <= at,
                all == texts(argv@),
                read_arguments(all, 1, ContextView { executable: Some(all[0]), ..no_context() })
                    == read_arguments(all, at as int, context@),
            decreases argv.len() - at,
        {
            let arg = argv[at].as_str();
            assert(arg@ == all[at as int]);
            assert(at + 1 < argv@.len() ==> all[at + 1] == argv@[at + 1]@);
            let ghost before = context@;
            let mut used: usize = 1;
            if let Some(value) = strip_prefix(arg, "--profile=") {
                context.profile = Some(value);
            } else if let Some(value) = strip_prefix(arg, "--region=") {
                context.region = Some(value);
            } else if same_text(arg, "--no-sign-request") {
                context.no_sign_request = true;
            } else if same_text(arg, "--endpoint-url") {
                context.explicit_endpoint = true;
                used = 2;
            } else if starts_with(arg, "--endpoint-url=") {
                context.explicit_endpoint = true;
            } else if same_text(arg, "--profile") {
                if at + 1 < argv.len() {
                    context.profile = Some(argv[at + 1].clone());
                    used = 2;
                }
            } else if same_text(arg, "--region") {
                if at + 1 < argv.len() {
                    context.region = Some(argv[at + 1].clone());
                    used = 2;
                }
            } else if takes_global_value(arg) {
                used = 2;
            } else if !starts_with(arg, "-") && context.service.is_none() {
                context.service = Some(arg.to_owned());
            }
            assert(read_argument(all, at as int, before) == (context@, used as int));
            if used == 2 && at + 1 >= argv.len() {
                assert(read_arguments(all, at + 2, context@) == context@);
                at = argv.len();
            } else {
                at = at + used;
            }
        }
        context
    }

    pub fn is_aws_cli(&self) -> (r: bool)
        ensures
            r == (self@.executable is Some),
    {
        self.executable.is_some()
    }

    /// Why no diagnostic call may be made.
    pub fn diagnostic_block_reason(&self) -> (r: Option<&'static str>)
        ensures
            opt_str(r) == self@.block_reason(),
    {
        if self.no_sign_request {
            Some("Follow-up diagnostics were skipped because the command used --no-sign-request.")
        } else if self.explicit_endpoint {
            Some("Follow-up diagnostics were skipped because the command used a custom endpoint.")
        } else {
            None
        }
    }

    /// Where the credentials of the command came from. `aws_profile` is what the
    /// environment variable `AWS_PROFILE` holds.
    pub fn credential_hint(&self, aws_profile: Option<&str>) -> (r: Option<String>)
        ensures
            opt_text(r) == Some(self@.credential_hint(opt_str(aws_profile))),
    {
        if self.no_sign_request {
            return Some("unsigned request (--no-sign-request)".to_owned());
        }
        if let Some(profile) = &self.profile {
            let mut hint = "AWS CLI --profile ".to_owned();
            hint.append(profile.as_str());
            return Some(hint);
        }
        match aws_profile {
            Some(value) => {
                let mut hint = "AWS_PROFILE=".to_owned();
                hint.append(value);
                Some(hint)
            },
            None => Some("AWS default credential chain".to_owned()),
        }
    }

    /// The arguments of a diagnostic call.
    pub fn args_for(&self, command: &[&str]) -> (r: Vec<String>)
        ensures
            texts(r@) == self@.args_for(strs(command@)),
    {
        broadcast use lemma_texts_push;

        let mut args: Vec<String> = Vec::new();
        if let Some(profile) = &self.profile {
            args.push("--profile".to_owned());
            args.push(profile.clone());
        }
        if let Some(region) = &self.region {
            args.push("--region".to_owned());
            args.push(region.clone());
        }
        let ghost shared = texts(args@);
        assert(shared =~= self@.shared_options());
        let mut i: usize = 0;
        while i < command.len()
            invariant
                i <= command@.len(),
                texts(args@) =~= shared + strs(command@).take(i as int),
            decreases command.len() - i,
        {
            broadcast use lemma_texts_push;

            args.push(command[i].to_owned());
            i += 1;
        }
        args
    }

    /// The executable that diagnostic calls run.
    pub fn executable(&self) -> (r: Result<&str, String>)
        ensures
            match self@.executable {
                Some(name) => r matches Ok(s) && s@ == name,
                None => r matches Err(e) && e@ == "the wrapped executable is not the AWS CLI"@,
            },
    {
        match &self.executable {
            Some(name) => Ok(name.as_str()),
            None => Err("the wrapped executable is not the AWS CLI".to_owned()),
        }
    }
}

impl Clone for AwsCommandContext {
    fn clone(&self) -> (r: Self)
        ensures
            r@ == self@,
    {
        AwsCommandContext {
            executable: copy_option(&self.executable),
            profile: copy_option(&self.profile),
            region: copy_option(&self.region),
            service: copy_option(&self.service),
            no_sign_request: self.no_sign_request,
            explicit_endpoint: self.explicit_endpoint,
        }
    }
}

/// The option takes the next argument for its value.
pub open spec fn takes_next(arg: Seq<char>) -> bool {
    arg == "--profile"@ || arg == "--region"@ || is_value_option(arg)
}

/// The argument is the value of the option in front of it.
pub open spec fn is_value(argv: Seq<Seq<char>>, at: int) -> bool
    decreases at,
{
    at > 1 && takes_next(argv[at - 1]) && !is_value(argv, at - 1)
}

/// What asks for an unsigned request or names an endpoint.
pub open spec fn leaves_aws(arg: Seq<char>) -> bool {
    arg == "--no-sign-request"@ || arg == "--endpoint-url"@ || begins_with(arg, "--endpoint-url="@)
}

proof fn lemma_stays_blocked(argv: Seq<Seq<char>>, at: int, known: ContextView)
    requires
        known.no_sign_request || known.explicit_endpoint,
    ensures
        read_arguments(argv, at, known).block_reason() is Some,
    decreases argv.len() - at + 1,
{
    if 0 <= at < argv.len() {
        let (next, used) = read_argument(argv, at, known);
        lemma_stays_blocked(argv, at + used, next);
    }
}

proof fn lemma_arguments_read(argv: Seq<Seq<char>>, at: int, known: ContextView)
    requires
        0 <= at < argv.len() - 1,
    ensures
        read_argument(argv, at, known).1 == if takes_next(argv[at]) {
            2int
        } else {
            1int
        },
{
    reveal_strlit("--profile=");
    reveal_strlit("--region=");
    reveal_strlit("--endpoint-url=");
    reveal_strlit("--no-sign-request");
    reveal_strlit("--profile");
    reveal_strlit("--region");
    reveal_strlit("--endpoint-url");
    reveal_strlit("--ca-bundle");
    reveal_strlit("--output");
    reveal_strlit("--query");
    reveal_strlit("--cli-connect-timeout");
    reveal_strlit("--cli-read-timeout");
    reveal_strlit("--color");
    reveal_strlit("--cli-error-format");
    let arg = argv[at];
    if begins_with(arg, "--profile="@) {
        assert(arg.subrange(0, 10)[2] == 'p' && arg.subrange(0, 10)[9] == '=');
    }
    if begins_with(arg, "--region="@) {
        assert(arg.subrange(0, 9)[2] == 'r' && arg.subrange(0, 9)[8] == '=');
    }
    if begins_with(arg, "--endpoint-url="@) {
        assert(arg.subrange(0, 15)[2] == 'e' && arg.subrange(0, 15)[14] == '=');
    }
    if arg == "--no-sign-request"@ {
        assert(arg[2] == 'n');
    }
}

proof fn lemma_blocked_where_reached(
    argv: Seq<Seq<char>>,
    at: int,
    known: ContextView,
    option: int,
)
    requires
        1 <= at <= option < argv.len(),
        leaves_aws(argv[option]),
        !is_value(argv, at),
        !is_value(argv, option),
    ensures
        read_arguments(argv, at, known).block_reason() is Some,
    decreases argv.len() - at + 1,
{
    let (next, used) = read_argument(argv, at, known);
    if at == option {
        reveal_strlit("--profile=");
        reveal_strlit("--region=");
        reveal_strlit("--no-sign-request");
        reveal_strlit("--endpoint-url");
        reveal_strlit("--endpoint-url=");
        let arg = argv[at];
        if begins_with(arg, "--endpoint-url="@) {
            assert(arg.subrange(0, 15)[2] == 'e');
        }
        if begins_with(arg, "--profile="@) {
            assert(arg.subrange(0, 10)[2] == 'p');
        }
        if begins_with(arg, "--region="@) {
            assert(arg.subrange(0, 9)[2] == 'r');
        }
        lemma_stays_blocked(argv, at + used, next);
    } else {
        reveal_with_fuel(is_value, 3);
        lemma_arguments_read(argv, at, known);
        lemma_blocked_where_reached(argv, at + used, next, option);
    }
}

/// Follow-up calls are skipped when the command uses `--no-sign-request` or an
/// explicit `--endpoint-url`, wherever it does. An argument that is the value of
/// the option in front of it is no use of either.
pub proof fn law_unsigned_and_redirected_commands_are_blocked(
    argv: Seq<Seq<char>>,
    name: Option<Seq<char>>,
    option: int,
)
    requires
        context_of(argv, name).executable is Some,
        1 <= option < argv.len(),
        leaves_aws(argv[option]),
        !is_value(argv, option),
    ensures
        context_of(argv, name).block_reason() is Some,
{
    lemma_blocked_where_reached(
        argv,
        1,
        ContextView { executable: Some(argv[0]), ..no_context() },
        option,
    );
}

proof fn lemma_stays_open(argv: Seq<Seq<char>>, at: int, known: ContextView)
    requires
        1 <= at,
        !known.no_sign_request,
        !known.explicit_endpoint,
        at < argv.len() ==> !is_value(argv, at),
        forall|i: int| 1 <= i < argv.len() && leaves_aws(#[trigger] argv[i]) ==> is_value(argv, i),
    ensures
        read_arguments(argv, at, known).block_reason() is None,
    decreases argv.len() - at + 1,
{
    if at < argv.len() {
        let (next, used) = read_argument(argv, at, known);
        assert(!leaves_aws(argv[at]));
        reveal_with_fuel(is_value, 3);
        if at + 1 < argv.len() {
            lemma_arguments_read(argv, at, known);
        }
        lemma_stays_open(argv, at + used, next);
    }
}

/// A command that uses neither `--no-sign-request` nor an explicit
/// `--endpoint-url` is not kept from follow-up calls.
pub proof fn law_other_commands_are_not_blocked(argv: Seq<Seq<char>>, name: Option<Seq<char>>)
    requires
        forall|i: int| 1 <= i < argv.len() && leaves_aws(#[trigger] argv[i]) ==> is_value(argv, i),
    ensures
        context_of(argv, name).block_reason() is None,
{
    if argv.len() > 0 {
        lemma_stays_open(argv, 1, ContextView { executable: Some(argv[0]), ..no_context() });
    }
}

proof fn lemma_executable_stays(argv: Seq<Seq<char>>, at: int, known: ContextView)
    ensures
        read_arguments(argv, at, known).executable == known.executable,
    decreases argv.len() - at + 1,
{
    if 0 <= at < argv.len() {
        let (next, used) = read_argument(argv, at, known);
        lemma_executable_stays(argv, at + used, next);
    }
}

/// The name of the AWS CLI.
pub open spec fn is_cli_name(name: Seq<char>) -> bool {
    name == "aws"@ || name == "aws.exe"@
}

/// Only a direct `aws` executable is recognized: a command is one of the AWS CLI
/// just where the file name of its executable is `aws` or `aws.exe`, and where the
/// executable itself is, if it has no file name. That executable is the one that
/// diagnostic calls run.
pub proof fn law_only_direct_commands_are_recognized(
    argv: Seq<Seq<char>>,
    name: Option<Seq<char>>,
)
    ensures
        context_of(argv, name).executable == if argv.len() > 0 && is_cli_name(
            match name {
                Some(n) => n,
                None => argv[0],
            },
        ) {
            Some(argv[0])
        } else {
            None
        },
{
    if argv.len() > 0 {
        lemma_executable_stays(argv, 1, ContextView { executable: Some(argv[0]), ..no_context() });
    }
}

/// The executable of a command has `aws` or `aws.exe` for the last component of its
/// path, as some platform takes paths apart.
pub open spec fn names_cli(argv: Seq<Seq<char>>) -> bool {
    argv.len() > 0 && (ends_path(argv[0], "aws"@) || ends_path(argv[0], "aws.exe"@))
}

/// A command is not one of the AWS CLI, whatever the platform, where the path of its
/// executable does not end in `aws` or `aws.exe`.
pub proof fn law_other_executables_are_not_recognized(
    argv: Seq<Seq<char>>,
    name: Option<Seq<char>>,
)
    requires
        argv.len() > 0 ==> is_file_name(argv[0], name),
        !names_cli(argv),
    ensures
        context_of(argv, name) == no_context(),
{
    if argv.len() > 0 && name is None && is_cli_name(argv[0]) {
        reveal_strlit("aws");
        reveal_strlit("aws.exe");
        assert(argv[0].subrange(0, argv[0].len() as int) =~= argv[0]);
        assert(occurs_at(argv[0], argv[0], 0));
    }
}

/// On the paths whose last component all platforms read alike, a command is one of the
/// AWS CLI just where the last component of the path of its executable is `aws` or
/// `aws.exe`, and its arguments say what they say behind that name.
pub proof fn law_commands_are_recognized_by_the_last_component(
    argv: Seq<Seq<char>>,
    name: Option<Seq<char>>,
)
    requires
        argv.len() > 0,
        is_portable_path(argv[0]),
        is_file_name(argv[0], name),
    ensures
        context_of(argv, name) == context_of(argv, Some(last_component(argv[0]))),
        context_of(argv, name).executable == if is_cli_name(last_component(argv[0])) {
            Some(argv[0])
        } else {
            None
        },
{
    law_only_direct_commands_are_recognized(argv, name);
    reveal_strlit("aws");
    reveal_strlit("aws.exe");
    reveal_strlit(".");
    reveal_strlit("..");
    lemma_last_index_of(argv[0], '/');
    if is_cli_name(argv[0]) {
        assert(last_component(argv[0]) == argv[0]);
    }
}

/// The argument at a position names a value: `prefix` and the value in one argument, or
/// the option with the value behind it.
pub open spec fn names_value(
    argv: Seq<Seq<char>>,
    at: int,
    option: Seq<char>,
    prefix: Seq<char>,
) -> Option<Seq<char>> {
    if begins_with(argv[at], prefix) {
        Some(argv[at].skip(prefix.len() as int))
    } else if argv[at] == option && at + 1 < argv.len() {
        Some(argv[at + 1])
    } else {
        None
    }
}

/// An argument in front of which reading starts is reached.
proof fn lemma_reached(argv: Seq<Seq<char>>, at: int, known: ContextView, to: int) -> (then:
    ContextView)
    requires
        1 <= at <= to < argv.len(),
        !is_value(argv, at),
        !is_value(argv, to),
    ensures
        read_arguments(argv, at, known) == read_arguments(argv, to, then),
        known.service is Some ==> then.service == known.service,
        known.service is None && (forall|k: int|
            at <= k < to && !is_value(argv, k) ==> begins_with(#[trigger] argv[k], "-"@))
            ==> then.service is None,
    decreases to - at,
{
    if at == to {
        known
    } else {
        let (next, used) = read_argument(argv, at, known);
        reveal_with_fuel(is_value, 3);
        lemma_arguments_read(argv, at, known);
        lemma_reached(argv, at + used, next, to)
    }
}

proof fn lemma_options_apart(arg: Seq<char>)
    ensures
        begins_with(arg, "--profile="@) ==> !begins_with(arg, "--region="@) && arg != "--region"@,
        begins_with(arg, "--region="@) ==> !begins_with(arg, "--profile="@) && arg != "--profile"@,
        arg == "--profile"@ ==> !begins_with(arg, "--profile="@) && !begins_with(arg, "--region="@)
            && arg != "--region"@ && arg != "--no-sign-request"@ && arg != "--endpoint-url"@
            && !begins_with(arg, "--endpoint-url="@),
        arg == "--region"@ ==> !begins_with(arg, "--profile="@) && !begins_with(arg, "--region="@)
            && arg != "--no-sign-request"@ && arg != "--endpoint-url"@ && !begins_with(
            arg,
            "--endpoint-url="@,
        ),
        !begins_with(arg, "-"@) ==> !begins_with(arg, "--profile="@) && !begins_with(
            arg,
            "--region="@,
        ) && arg != "--profile"@ && arg != "--region"@ && arg != "--no-sign-request"@ && arg
            != "--endpoint-url"@ && !begins_with(arg, "--endpoint-url="@) && !is_value_option(arg),
{
    reveal_strlit("-");
    reveal_strlit("--profile=");
    reveal_strlit("--region=");
    reveal_strlit("--endpoint-url=");
    reveal_strlit("--no-sign-request");
    reveal_strlit("--profile");
    reveal_strlit("--region");
    reveal_strlit("--endpoint-url");
    reveal_strlit("--ca-bundle");
    reveal_strlit("--output");
    reveal_strlit("--query");
    reveal_strlit("--cli-connect-timeout");
    reveal_strlit("--cli-read-timeout");
    reveal_strlit("--color");
    reveal_strlit("--cli-error-format");
    if begins_with(arg, "--profile="@) {
        assert(arg.subrange(0, 10)[0] == '-' && arg.subrange(0, 10)[2] == 'p');
    }
    if begins_with(arg, "--region="@) {
        assert(arg.subrange(0, 9)[0] == '-' && arg.subrange(0, 9)[2] == 'r');
    }
    if begins_with(arg, "--endpoint-url="@) {
        assert(arg.subrange(0, 15)[0] == '-' && arg.subrange(0, 15)[2] == 'e');
    }
    if arg.len() > 0 && arg[0] == '-' {
        assert(arg.subrange(0, 1) =~= "-"@);
        assert(begins_with(arg, "-"@));
    }
}

proof fn lemma_profile_stays(argv: Seq<Seq<char>>, at: int, known: ContextView)
    requires
        1 <= at,
        at < argv.len() ==> !is_value(argv, at),
        forall|k: int|
            at <= k < argv.len() && !is_value(argv, k) ==> #[trigger] names_value(
                argv,
                k,
                "--profile"@,
                "--profile="@,
            ) is None,
    ensures
        read_arguments(argv, at, known).profile == known.profile,
    decreases argv.len() - at + 1,
{
    if at < argv.len() {
        let (next, used) = read_argument(argv, at, known);
        assert(names_value(argv, at, "--profile"@, "--profile="@) is None);
        lemma_options_apart(argv[at]);
        reveal_with_fuel(is_value, 3);
        if at + 1 < argv.len() {
            lemma_arguments_read(argv, at, known);
        }
        lemma_profile_stays(argv, at + used, next);
    }
}

proof fn lemma_region_stays(argv: Seq<Seq<char>>, at: int, known: ContextView)
    requires
        1 <= at,
        at < argv.len() ==> !is_value(argv, at),
        forall|k: int|
            at <= k < argv.len() && !is_value(argv, k) ==> #[trigger] names_value(
                argv,
                k,
                "--region"@,
                "--region="@,
            ) is None,
    ensures
        read_arguments(argv, at, known).region == known.region,
    decreases argv.len() - at + 1,
{
    if at < argv.len() {
        let (next, used) = read_argument(argv, at, known);
        assert(names_value(argv, at, "--region"@, "--region="@) is None);
        lemma_options_apart(argv[at]);
        reveal_with_fuel(is_value, 3);
        if at + 1 < argv.len() {
            lemma_arguments_read(argv, at, known);
        }
        lemma_region_stays(argv, at + used, next);
    }
}

proof fn lemma_service_stays(argv: Seq<Seq<char>>, at: int, known: ContextView)
    requires
        1 <= at,
        at < argv.len() ==> !is_value(argv, at),
        known.service is Some || forall|k: int|
            at <= k < argv.len() && !is_value(argv, k) ==> begins_with(#[trigger] argv[k], "-"@),
    ensures
        read_arguments(argv, at, known).service == known.service,
    decreases argv.len() - at + 1,
{
    if at < argv.len() {
        let (next, used) = read_argument(argv, at, known);
        reveal_with_fuel(is_value, 3);
        if at + 1 < argv.len() {
            lemma_arguments_read(argv, at, known);
        }
        lemma_service_stays(argv, at + used, next);
    }
}

/// Of several profiles that a command names the last one counts, and without any there
/// is none. The value of another option names nothing.
pub proof fn law_the_last_profile_counts(argv: Seq<Seq<char>>, name: Option<Seq<char>>, at: int)
    requires
        context_of(argv, name).executable is Some,
        1 <= at <= argv.len(),
        at < argv.len() ==> !is_value(argv, at) && names_value(
            argv,
            at,
            "--profile"@,
            "--profile="@,
        ) is Some,
        forall|k: int|
            (at < k < argv.len() || (at == argv.len() && 1 <= k < argv.len())) && !is_value(argv, k)
                ==> #[trigger] names_value(argv, k, "--profile"@, "--profile="@) is None,
    ensures
        context_of(argv, name).profile == if at < argv.len() {
            names_value(argv, at, "--profile"@, "--profile="@)
        } else {
            None
        },
{
    let start = ContextView { executable: Some(argv[0]), ..no_context() };
    reveal_with_fuel(is_value, 3);
    if at == argv.len() {
        lemma_profile_stays(argv, 1, start);
    } else {
        let known = lemma_reached(argv, 1, start, at);
        let (next, used) = read_argument(argv, at, known);
        lemma_options_apart(argv[at]);
        if at + 1 < argv.len() {
            lemma_arguments_read(argv, at, known);
        }
        lemma_profile_stays(argv, at + used, next);
    }
}

/// Of several regions that a command names the last one counts, and without any there
/// is none.
pub proof fn law_the_last_region_counts(argv: Seq<Seq<char>>, name: Option<Seq<char>>, at: int)
    requires
        context_of(argv, name).executable is Some,
        1 <= at <= argv.len(),
        at < argv.len() ==> !is_value(argv, at) && names_value(
            argv,
            at,
            "--region"@,
            "--region="@,
        ) is Some,
        forall|k: int|
            (at < k < argv.len() || (at == argv.len() && 1 <= k < argv.len())) && !is_value(argv, k)
                ==> #[trigger] names_value(argv, k, "--region"@, "--region="@) is None,
    ensures
        context_of(argv, name).region == if at < argv.len() {
            names_value(argv, at, "--region"@, "--region="@)
        } else {
            None
        },
{
    let start = ContextView { executable: Some(argv[0]), ..no_context() };
    reveal_with_fuel(is_value, 3);
    if at == argv.len() {
        lemma_region_stays(argv, 1, start);
    } else {
        let known = lemma_reached(argv, 1, start, at);
        let (next, used) = read_argument(argv, at, known);
        lemma_options_apart(argv[at]);
        if at + 1 < argv.len() {
            lemma_arguments_read(argv, at, known);
        }
        lemma_region_stays(argv, at + used, next);
    }
}

/// The service of a command is its first argument that is neither an option nor the
/// value of one.
pub proof fn law_the_first_plain_argument_is_the_service(
    argv: Seq<Seq<char>>,
    name: Option<Seq<char>>,
    at: int,
)
    requires
        context_of(argv, name).executable is Some,
        1 <= at <= argv.len(),
        at < argv.len() ==> !is_value(argv, at) && !begins_with(argv[at], "-"@),
        forall|k: int| 1 <= k < at && !is_value(argv, k) ==> begins_with(#[trigger] argv[k], "-"@),
    ensures
        context_of(argv, name).service == if at < argv.len() {
            Some(argv[at])
        } else {
            None
        },
{
    let start = ContextView { executable: Some(argv[0]), ..no_context() };
    reveal_with_fuel(is_value, 3);
    if at == argv.len() {
        lemma_service_stays(argv, 1, start);
    } else {
        let known = lemma_reached(argv, 1, start, at);
        let (next, used) = read_argument(argv, at, known);
        lemma_options_apart(argv[at]);
        if at + 1 < argv.len() {
            lemma_arguments_read(argv, at, known);
        }
        lemma_service_stays(argv, at + used, next);
    }
}

/// The options whose value is the next argument, to the letter.
pub proof fn law_options_take_values(arg: Seq<char>)
    ensures
        takes_next(arg) <==> arg == "--profile"@ || arg == "--region"@ || arg == "--endpoint-url"@
            || arg == "--ca-bundle"@ || arg == "--output"@ || arg == "--query"@ || arg
            == "--cli-connect-timeout"@ || arg == "--cli-read-timeout"@ || arg == "--color"@ || arg
            == "--cli-error-format"@,
        leaves_aws(arg) <==> arg == "--no-sign-request"@ || arg == "--endpoint-url"@ || begins_with(
            arg,
            "--endpoint-url="@,
        ),
{
}

/// Why no call may be made tells which option forbids it, and that a request is unsigned
/// goes first. Only those two options forbid any.
pub proof fn law_block_reasons_name_the_option(context: ContextView)
    ensures
        context.no_sign_request ==> context.block_reason() == Some(
            "Follow-up diagnostics were skipped because the command used --no-sign-request."@,
        ),
        !context.no_sign_request && context.explicit_endpoint ==> context.block_reason() == Some(
            "Follow-up diagnostics were skipped because the command used a custom endpoint."@,
        ),
        context.block_reason() is None <==> !context.no_sign_request && !context.explicit_endpoint,
{
}

/// Credentials come from where the command says: nowhere for an unsigned request, else
/// the profile that it names, else the one that the environment names, else where AWS
/// looks by itself.
pub proof fn law_credentials_come_from_the_closest_source(
    context: ContextView,
    aws_profile: Option<Seq<char>>,
)
    ensures
        context.no_sign_request ==> context.credential_hint(aws_profile)
            == "unsigned request (--no-sign-request)"@,
        !context.no_sign_request ==> (context.profile matches Some(profile)
            ==> context.credential_hint(aws_profile) == "AWS CLI --profile "@ + profile),
        !context.no_sign_request && context.profile is None ==> (aws_profile matches Some(profile)
            ==> context.credential_hint(aws_profile) == "AWS_PROFILE="@ + profile),
        !context.no_sign_request && context.profile is None && aws_profile is None
            ==> context.credential_hint(aws_profile) == "AWS default credential chain"@,
{
}

/// A diagnostic call has the profile and the region of the command in front of its own
/// arguments, each behind its option, and nothing else of the command's.
pub proof fn law_calls_share_profile_and_region(context: ContextView, command: Seq<Seq<char>>)
    ensures
        context.profile is None && context.region is None ==> context.args_for(command) == command,
        context.profile matches Some(profile) ==> (context.region is None ==> context.args_for(
            command,
        ) == seq!["--profile"@, profile] + command),
        context.region matches Some(region) ==> (context.profile is None ==> context.args_for(
            command,
        ) == seq!["--region"@, region] + command),
        context.profile matches Some(profile) ==> (context.region matches Some(region)
            ==> context.args_for(command) == seq!["--profile"@, profile, "--region"@, region]
            + command),
{
    if let Some(profile) = context.profile {
        if let Some(region) = context.region {
            assert(context.args_for(command) =~= seq!["--profile"@, profile, "--region"@, region]
                + command);
        } else {
            assert(context.args_for(command) =~= seq!["--profile"@, profile] + command);
        }
    } else if let Some(region) = context.region {
        assert(context.args_for(command) =~= seq!["--region"@, region] + command);
    } else {
        assert(context.args_for(command) =~= command);
    }
}

} // verus!
