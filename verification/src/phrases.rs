//! The fixed phrases of the texts that people read: none of them can steer a
//! terminal.
use vstd::prelude::*;

use crate::model::{cause_label, guidance_for, option_is_clean, DenyCause};
use crate::redaction::{lemma_phrase, lemma_short_phrase, no_controls};

verus! {

/// Phrases of advice.
proof fn lemma_guidance_phrases_1()
    ensures
        no_controls("If this access is expected, ask an administrator to add an identity-policy Allow for the reported action and resource."@),
        no_controls("An additional Allow will not override this denial. Ask the identity-policy owner to review the explicit Deny."@),
        no_controls("An identity-policy Allow alone will not fix this. Ask the boundary owner to permit the action, then verify the identity policy also allows it."@),
        no_controls("An identity-policy Allow will not override this. Ask the AWS Organizations administrator to review the service control policy."@),
{
    reveal_strlit("If this access is expected, ask an administrator to add an identity-policy Allow for the reported action and resource.");
    lemma_phrase("If this access is expected, ask an administrator to add an identity-policy Allow for the reported action and resource."@);
    reveal_strlit("An additional Allow will not override this denial. Ask the identity-policy owner to review the explicit Deny.");
    lemma_phrase("An additional Allow will not override this denial. Ask the identity-policy owner to review the explicit Deny."@);
    reveal_strlit("An identity-policy Allow alone will not fix this. Ask the boundary owner to permit the action, then verify the identity policy also allows it.");
    lemma_phrase("An identity-policy Allow alone will not fix this. Ask the boundary owner to permit the action, then verify the identity policy also allows it."@);
    reveal_strlit("An identity-policy Allow will not override this. Ask the AWS Organizations administrator to review the service control policy.");
    lemma_phrase("An identity-policy Allow will not override this. Ask the AWS Organizations administrator to review the service control policy."@);
}

/// Phrases of advice.
proof fn lemma_guidance_phrases_2()
    ensures
        no_controls("An identity-policy Allow will not override this. Ask the AWS Organizations administrator to review the resource control policy."@),
        no_controls("Ask the resource owner to review its resource-based policy; an identity-policy change alone may not fix this."@),
        no_controls("Ask whoever creates the role session to review its session policy; changing the role policy alone may not fix this session."@),
        no_controls("Ask the VPC endpoint owner to review the endpoint policy; an identity-policy Allow will not override it."@),
        no_controls("Ask the role owner to review the role trust policy and the caller allowed to assume it."@),
{
    reveal_strlit("An identity-policy Allow will not override this. Ask the AWS Organizations administrator to review the resource control policy.");
    lemma_phrase("An identity-policy Allow will not override this. Ask the AWS Organizations administrator to review the resource control policy."@);
    reveal_strlit("Ask the resource owner to review its resource-based policy; an identity-policy change alone may not fix this.");
    lemma_phrase("Ask the resource owner to review its resource-based policy; an identity-policy change alone may not fix this."@);
    reveal_strlit("Ask whoever creates the role session to review its session policy; changing the role policy alone may not fix this session.");
    lemma_phrase("Ask whoever creates the role session to review its session policy; changing the role policy alone may not fix this session."@);
    reveal_strlit("Ask the VPC endpoint owner to review the endpoint policy; an identity-policy Allow will not override it.");
    lemma_phrase("Ask the VPC endpoint owner to review the endpoint policy; an identity-policy Allow will not override it."@);
    reveal_strlit("Ask the role owner to review the role trust policy and the caller allowed to assume it.");
    lemma_phrase("Ask the role owner to review the role trust policy and the caller allowed to assume it."@);
}

/// Phrases of advice.
proof fn lemma_guidance_phrases_3()
    ensures
        no_controls("Ask the KMS key administrator to review the key policy; an identity-policy Allow alone may not grant access."@),
        no_controls("Review the policy conditions and the request context reported by AWS before changing permissions."@),
{
    reveal_strlit("Ask the KMS key administrator to review the key policy; an identity-policy Allow alone may not grant access.");
    lemma_phrase("Ask the KMS key administrator to review the key policy; an identity-policy Allow alone may not grant access."@);
    reveal_strlit("Review the policy conditions and the request context reported by AWS before changing permissions.");
    lemma_phrase("Review the policy conditions and the request context reported by AWS before changing permissions."@);
}

/// No advice can steer a terminal.
pub proof fn lemma_guidance_is_clean(cause: DenyCause)
    ensures
        option_is_clean(guidance_for(cause)),
{
    lemma_guidance_phrases_1();
    lemma_guidance_phrases_2();
    lemma_guidance_phrases_3();
}

/// Labels of causes.
proof fn lemma_cause_phrases_1()
    ensures
        no_controls("no identity-based policy allows the action"@),
        no_controls("an identity-based policy explicitly denies the action"@),
        no_controls("a permissions boundary blocks the action"@),
        no_controls("a service control policy blocks the action"@),
        no_controls("a resource control policy blocks the action"@),
        no_controls("a resource-based policy blocks the action"@),
        no_controls("a session policy blocks the action"@),
        no_controls("a VPC endpoint policy blocks the action"@),
        no_controls("the role trust policy blocks the action"@),
        no_controls("the KMS key policy blocks the action"@),
        no_controls("a policy condition was not satisfied"@),
        no_controls("the exact denial reason is unknown"@),
{
    reveal_strlit("no identity-based policy allows the action");
    lemma_phrase("no identity-based policy allows the action"@);
    reveal_strlit("an identity-based policy explicitly denies the action");
    lemma_phrase("an identity-based policy explicitly denies the action"@);
    reveal_strlit("a permissions boundary blocks the action");
    lemma_phrase("a permissions boundary blocks the action"@);
    reveal_strlit("a service control policy blocks the action");
    lemma_phrase("a service control policy blocks the action"@);
    reveal_strlit("a resource control policy blocks the action");
    lemma_phrase("a resource control policy blocks the action"@);
    reveal_strlit("a resource-based policy blocks the action");
    lemma_phrase("a resource-based policy blocks the action"@);
    reveal_strlit("a session policy blocks the action");
    lemma_phrase("a session policy blocks the action"@);
    reveal_strlit("a VPC endpoint policy blocks the action");
    lemma_phrase("a VPC endpoint policy blocks the action"@);
    reveal_strlit("the role trust policy blocks the action");
    lemma_phrase("the role trust policy blocks the action"@);
    reveal_strlit("the KMS key policy blocks the action");
    lemma_phrase("the KMS key policy blocks the action"@);
    reveal_strlit("a policy condition was not satisfied");
    lemma_phrase("a policy condition was not satisfied"@);
    reveal_strlit("the exact denial reason is unknown");
    lemma_phrase("the exact denial reason is unknown"@);
}

/// No label of a cause can steer a terminal.
pub proof fn lemma_cause_label_is_clean(cause: DenyCause)
    ensures
        no_controls(cause_label(cause)),
{
    lemma_cause_phrases_1();
}

/// Phrases of the texts.
proof fn lemma_text_phrases_1()
    ensures
        no_controls("\n"@),
        no_controls("  "@),
        no_controls(": "@),
        no_controls("\n\n"@),
        no_controls("\nAUTHENTICATION FAILURE\n\n"@),
        no_controls("Your AWS session expired.\n\n"@),
        no_controls("This is not evidence that an IAM permission is missing.\n"@),
        no_controls("AWS request authorization details"@),
        no_controls("AWS decoded authorization message"@),
        no_controls("AWS error response"@),
        no_controls("IAM policy simulation"@),
        no_controls("no authorization evidence"@),
        no_controls("verified"@),
        no_controls("reported by AWS"@),
        no_controls("simulated"@),
        no_controls("incomplete"@),
        no_controls("Policy resource check\n  "@),
        no_controls("mismatch"@),
{
    reveal_strlit("\n");
    lemma_short_phrase("\n"@);
    reveal_strlit("  ");
    lemma_short_phrase("  "@);
    reveal_strlit(": ");
    lemma_short_phrase(": "@);
    reveal_strlit("\n\n");
    lemma_short_phrase("\n\n"@);
    reveal_strlit("\nAUTHENTICATION FAILURE\n\n");
    lemma_short_phrase("\nAUTHENTICATION FAILURE\n\n"@);
    reveal_strlit("Your AWS session expired.\n\n");
    lemma_short_phrase("Your AWS session expired.\n\n"@);
    reveal_strlit("This is not evidence that an IAM permission is missing.\n");
    lemma_phrase("This is not evidence that an IAM permission is missing.\n"@);
    reveal_strlit("AWS request authorization details");
    lemma_phrase("AWS request authorization details"@);
    reveal_strlit("AWS decoded authorization message");
    lemma_phrase("AWS decoded authorization message"@);
    reveal_strlit("AWS error response");
    lemma_short_phrase("AWS error response"@);
    reveal_strlit("IAM policy simulation");
    lemma_short_phrase("IAM policy simulation"@);
    reveal_strlit("no authorization evidence");
    lemma_short_phrase("no authorization evidence"@);
    reveal_strlit("verified");
    lemma_short_phrase("verified"@);
    reveal_strlit("reported by AWS");
    lemma_short_phrase("reported by AWS"@);
    reveal_strlit("simulated");
    lemma_short_phrase("simulated"@);
    reveal_strlit("incomplete");
    lemma_short_phrase("incomplete"@);
    reveal_strlit("Policy resource check\n  ");
    lemma_short_phrase("Policy resource check\n  "@);
    reveal_strlit("mismatch");
    lemma_short_phrase("mismatch"@);
}

/// Phrases of the texts.
proof fn lemma_text_phrases_2()
    ensures
        no_controls("not verified"@),
        no_controls("\n  "@),
        no_controls("  policy: "@),
        no_controls("Role"@),
        no_controls("User"@),
        no_controls("Principal"@),
        no_controls("\nDENIED"@),
        no_controls(""@),
        no_controls(" on "@),
        no_controls("\nDENIED: "@),
        no_controls(" authorization checks\n\n"@),
        no_controls("Request "@),
        no_controls("\n  action: "@),
        no_controls("unknown"@),
        no_controls("\n  resource: "@),
        no_controls("not reported by AWS"@),
        no_controls("ASK YOUR ADMIN FOR\n"@),
        no_controls("  Principal: "@),
        no_controls("  Missing: "@),
{
    reveal_strlit("not verified");
    lemma_short_phrase("not verified"@);
    reveal_strlit("\n  ");
    lemma_short_phrase("\n  "@);
    reveal_strlit("  policy: ");
    lemma_short_phrase("  policy: "@);
    reveal_strlit("Role");
    lemma_short_phrase("Role"@);
    reveal_strlit("User");
    lemma_short_phrase("User"@);
    reveal_strlit("Principal");
    lemma_short_phrase("Principal"@);
    reveal_strlit("\nDENIED");
    lemma_short_phrase("\nDENIED"@);
    reveal_strlit("");
    lemma_short_phrase(""@);
    reveal_strlit(" on ");
    lemma_short_phrase(" on "@);
    reveal_strlit("\nDENIED: ");
    lemma_short_phrase("\nDENIED: "@);
    reveal_strlit(" authorization checks\n\n");
    lemma_short_phrase(" authorization checks\n\n"@);
    reveal_strlit("Request ");
    lemma_short_phrase("Request "@);
    reveal_strlit("\n  action: ");
    lemma_short_phrase("\n  action: "@);
    reveal_strlit("unknown");
    lemma_short_phrase("unknown"@);
    reveal_strlit("\n  resource: ");
    lemma_short_phrase("\n  resource: "@);
    reveal_strlit("not reported by AWS");
    lemma_short_phrase("not reported by AWS"@);
    reveal_strlit("ASK YOUR ADMIN FOR\n");
    lemma_short_phrase("ASK YOUR ADMIN FOR\n"@);
    reveal_strlit("  Principal: ");
    lemma_short_phrase("  Principal: "@);
    reveal_strlit("  Missing: ");
    lemma_short_phrase("  Missing: "@);
}

/// Phrases of the texts.
proof fn lemma_text_phrases_3()
    ensures
        no_controls("an unreported resource"@),
        no_controls("\n  Candidate policy (administrator review required):\n"@),
        no_controls("    "@),
        no_controls("\nCandidate only—administrator review required; other policy layers may still deny the request.\n\n"@),
        no_controls("NEXT STEP\n  "@),
        no_controls("Reason"@),
        no_controls("\nACCESS DENIED\n\n"@),
        no_controls("Exact denial reason unknown.\n"@),
        no_controls("Important"@),
        no_controls("\nACCESS DENIED"@),
        no_controls("Identity\n  account: "@),
        no_controls("\n  principal: "@),
        no_controls("  session: "@),
        no_controls("Authorization check "@),
        no_controls("  action: "@),
        no_controls("  resource: "@),
{
    reveal_strlit("an unreported resource");
    lemma_short_phrase("an unreported resource"@);
    reveal_strlit("\n  Candidate policy (administrator review required):\n");
    lemma_phrase("\n  Candidate policy (administrator review required):\n"@);
    reveal_strlit("    ");
    lemma_short_phrase("    "@);
    reveal_strlit("\nCandidate only—administrator review required; other policy layers may still deny the request.\n\n");
    lemma_phrase("\nCandidate only—administrator review required; other policy layers may still deny the request.\n\n"@);
    reveal_strlit("NEXT STEP\n  ");
    lemma_short_phrase("NEXT STEP\n  "@);
    reveal_strlit("Reason");
    lemma_short_phrase("Reason"@);
    reveal_strlit("\nACCESS DENIED\n\n");
    lemma_short_phrase("\nACCESS DENIED\n\n"@);
    reveal_strlit("Exact denial reason unknown.\n");
    lemma_short_phrase("Exact denial reason unknown.\n"@);
    reveal_strlit("Important");
    lemma_short_phrase("Important"@);
    reveal_strlit("\nACCESS DENIED");
    lemma_short_phrase("\nACCESS DENIED"@);
    reveal_strlit("Identity\n  account: ");
    lemma_short_phrase("Identity\n  account: "@);
    reveal_strlit("\n  principal: ");
    lemma_short_phrase("\n  principal: "@);
    reveal_strlit("  session: ");
    lemma_short_phrase("  session: "@);
    reveal_strlit("Authorization check ");
    lemma_short_phrase("Authorization check "@);
    reveal_strlit("  action: ");
    lemma_short_phrase("  action: "@);
    reveal_strlit("  resource: ");
    lemma_short_phrase("  resource: "@);
}

/// Phrases of the texts.
proof fn lemma_text_phrases_4()
    ensures
        no_controls("Evidence\n  "@),
        no_controls(" ("@),
        no_controls(")\n\n"@),
        no_controls("AWS already identified this cause; IAM simulation was not required.\n\n"@),
        no_controls("SIMULATION ALLOWS THIS REQUEST\nBut the live request failed and could not be fully reproduced.\nResult: INCOMPLETE\n\n"@),
        no_controls("Cause"@),
        no_controls("Could not verify runtime context"@),
        no_controls("Administrator handoff\n"@),
        no_controls("  principal: "@),
        no_controls("What to do next\n  "@),
        no_controls("Candidate policy (administrator review required)\n"@),
        no_controls("  This addresses the reported denial only; another policy layer may still block the request.\n\n"@),
        no_controls("AWS error\n  "@),
{
    reveal_strlit("Evidence\n  ");
    lemma_short_phrase("Evidence\n  "@);
    reveal_strlit(" (");
    lemma_short_phrase(" ("@);
    reveal_strlit(")\n\n");
    lemma_short_phrase(")\n\n"@);
    reveal_strlit("AWS already identified this cause; IAM simulation was not required.\n\n");
    lemma_phrase("AWS already identified this cause; IAM simulation was not required.\n\n"@);
    reveal_strlit("SIMULATION ALLOWS THIS REQUEST\nBut the live request failed and could not be fully reproduced.\nResult: INCOMPLETE\n\n");
    lemma_phrase("SIMULATION ALLOWS THIS REQUEST\nBut the live request failed and could not be fully reproduced.\nResult: INCOMPLETE\n\n"@);
    reveal_strlit("Cause");
    lemma_short_phrase("Cause"@);
    reveal_strlit("Could not verify runtime context");
    lemma_short_phrase("Could not verify runtime context"@);
    reveal_strlit("Administrator handoff\n");
    lemma_short_phrase("Administrator handoff\n"@);
    reveal_strlit("  principal: ");
    lemma_short_phrase("  principal: "@);
    reveal_strlit("What to do next\n  ");
    lemma_short_phrase("What to do next\n  "@);
    reveal_strlit("Candidate policy (administrator review required)\n");
    lemma_phrase("Candidate policy (administrator review required)\n"@);
    reveal_strlit("  This addresses the reported denial only; another policy layer may still block the request.\n\n");
    lemma_phrase("  This addresses the reported denial only; another policy layer may still block the request.\n\n"@);
    reveal_strlit("AWS error\n  ");
    lemma_short_phrase("AWS error\n  "@);
}

/// Phrases of the texts.
proof fn lemma_text_phrases_5()
    ensures
        no_controls("RESULT\n  Exact denial reason unknown.\n\n"@),
        no_controls("Credential source\n  "@),
        no_controls("Notes"@),
        no_controls("aws-why could not obtain complete AWS authorization details.\n"@),
        no_controls("AWS CONFIGURATION FAILURE"@),
        no_controls("Fix the local AWS CLI configuration before investigating IAM."@),
        no_controls("AWS NETWORK FAILURE"@),
        no_controls("The request did not produce evidence of an IAM denial."@),
        no_controls("AWS RESOURCE NOT FOUND"@),
        no_controls("This is not evidence that an IAM permission is missing."@),
        no_controls("COMMAND FAILED"@),
        no_controls("aws-why found no reliable evidence of an IAM denial."@),
        no_controls("*"@),
        no_controls("  + ALLOWED  "@),
        no_controls("  - DENIED   "@),
{
    reveal_strlit("RESULT\n  Exact denial reason unknown.\n\n");
    lemma_phrase("RESULT\n  Exact denial reason unknown.\n\n"@);
    reveal_strlit("Credential source\n  ");
    lemma_short_phrase("Credential source\n  "@);
    reveal_strlit("Notes");
    lemma_short_phrase("Notes"@);
    reveal_strlit("aws-why could not obtain complete AWS authorization details.\n");
    lemma_phrase("aws-why could not obtain complete AWS authorization details.\n"@);
    reveal_strlit("AWS CONFIGURATION FAILURE");
    lemma_short_phrase("AWS CONFIGURATION FAILURE"@);
    reveal_strlit("Fix the local AWS CLI configuration before investigating IAM.");
    lemma_phrase("Fix the local AWS CLI configuration before investigating IAM."@);
    reveal_strlit("AWS NETWORK FAILURE");
    lemma_short_phrase("AWS NETWORK FAILURE"@);
    reveal_strlit("The request did not produce evidence of an IAM denial.");
    lemma_phrase("The request did not produce evidence of an IAM denial."@);
    reveal_strlit("AWS RESOURCE NOT FOUND");
    lemma_short_phrase("AWS RESOURCE NOT FOUND"@);
    reveal_strlit("This is not evidence that an IAM permission is missing.");
    lemma_phrase("This is not evidence that an IAM permission is missing."@);
    reveal_strlit("COMMAND FAILED");
    lemma_short_phrase("COMMAND FAILED"@);
    reveal_strlit("aws-why found no reliable evidence of an IAM denial.");
    lemma_phrase("aws-why found no reliable evidence of an IAM denial."@);
    reveal_strlit("*");
    lemma_short_phrase("*"@);
    reveal_strlit("  + ALLOWED  ");
    lemma_short_phrase("  + ALLOWED  "@);
    reveal_strlit("  - DENIED   ");
    lemma_short_phrase("  - DENIED   "@);
}

/// Phrases of the texts.
proof fn lemma_text_phrases_6()
    ensures
        no_controls("  ? UNKNOWN  "@),
        no_controls(" — "@),
        no_controls("unknown:Unknown"@),
        no_controls("              policy: "@),
        no_controls("              missing context: "@),
        no_controls(", "@),
        no_controls("Resource\n  "@),
        no_controls("SIMULATED PERMISSIONS\n\n"@),
        no_controls("  policy source: "@),
        no_controls("\nSummary: "@),
        no_controls(" allowed, "@),
        no_controls(" denied, "@),
        no_controls(" unknown\n"@),
        no_controls("Note: "@),
        no_controls("Simulation only: this does not execute the actions or prove a live request will succeed.\n"@),
        no_controls("arn:aws:iam::"@),
        no_controls(":role/"@),
{
    reveal_strlit("  ? UNKNOWN  ");
    lemma_short_phrase("  ? UNKNOWN  "@);
    reveal_strlit(" — ");
    lemma_short_phrase(" — "@);
    reveal_strlit("unknown:Unknown");
    lemma_short_phrase("unknown:Unknown"@);
    reveal_strlit("              policy: ");
    lemma_short_phrase("              policy: "@);
    reveal_strlit("              missing context: ");
    lemma_short_phrase("              missing context: "@);
    reveal_strlit(", ");
    lemma_short_phrase(", "@);
    reveal_strlit("Resource\n  ");
    lemma_short_phrase("Resource\n  "@);
    reveal_strlit("SIMULATED PERMISSIONS\n\n");
    lemma_short_phrase("SIMULATED PERMISSIONS\n\n"@);
    reveal_strlit("  policy source: ");
    lemma_short_phrase("  policy source: "@);
    reveal_strlit("\nSummary: ");
    lemma_short_phrase("\nSummary: "@);
    reveal_strlit(" allowed, ");
    lemma_short_phrase(" allowed, "@);
    reveal_strlit(" denied, ");
    lemma_short_phrase(" denied, "@);
    reveal_strlit(" unknown\n");
    lemma_short_phrase(" unknown\n"@);
    reveal_strlit("Note: ");
    lemma_short_phrase("Note: "@);
    reveal_strlit("Simulation only: this does not execute the actions or prove a live request will succeed.\n");
    lemma_phrase("Simulation only: this does not execute the actions or prove a live request will succeed.\n"@);
    reveal_strlit("arn:aws:iam::");
    lemma_short_phrase("arn:aws:iam::"@);
    reveal_strlit(":role/");
    lemma_short_phrase(":role/"@);
}

/// No phrase of the texts can steer a terminal.
pub proof fn lemma_text_phrases()
    ensures
        no_controls("\n"@),
        no_controls("  "@),
        no_controls(": "@),
        no_controls("\n\n"@),
        no_controls("\nAUTHENTICATION FAILURE\n\n"@),
        no_controls("Your AWS session expired.\n\n"@),
        no_controls("This is not evidence that an IAM permission is missing.\n"@),
        no_controls("AWS request authorization details"@),
        no_controls("AWS decoded authorization message"@),
        no_controls("AWS error response"@),
        no_controls("IAM policy simulation"@),
        no_controls("no authorization evidence"@),
        no_controls("verified"@),
        no_controls("reported by AWS"@),
        no_controls("simulated"@),
        no_controls("incomplete"@),
        no_controls("Policy resource check\n  "@),
        no_controls("mismatch"@),
        no_controls("not verified"@),
        no_controls("\n  "@),
        no_controls("  policy: "@),
        no_controls("Role"@),
        no_controls("User"@),
        no_controls("Principal"@),
        no_controls("\nDENIED"@),
        no_controls(""@),
        no_controls(" on "@),
        no_controls("\nDENIED: "@),
        no_controls(" authorization checks\n\n"@),
        no_controls("Request "@),
        no_controls("\n  action: "@),
        no_controls("unknown"@),
        no_controls("\n  resource: "@),
        no_controls("not reported by AWS"@),
        no_controls("ASK YOUR ADMIN FOR\n"@),
        no_controls("  Principal: "@),
        no_controls("  Missing: "@),
        no_controls("an unreported resource"@),
        no_controls("\n  Candidate policy (administrator review required):\n"@),
        no_controls("    "@),
        no_controls("\nCandidate only—administrator review required; other policy layers may still deny the request.\n\n"@),
        no_controls("NEXT STEP\n  "@),
        no_controls("Reason"@),
        no_controls("\nACCESS DENIED\n\n"@),
        no_controls("Exact denial reason unknown.\n"@),
        no_controls("Important"@),
        no_controls("\nACCESS DENIED"@),
        no_controls("Identity\n  account: "@),
        no_controls("\n  principal: "@),
        no_controls("  session: "@),
        no_controls("Authorization check "@),
        no_controls("  action: "@),
        no_controls("  resource: "@),
        no_controls("Evidence\n  "@),
        no_controls(" ("@),
        no_controls(")\n\n"@),
        no_controls("AWS already identified this cause; IAM simulation was not required.\n\n"@),
        no_controls("SIMULATION ALLOWS THIS REQUEST\nBut the live request failed and could not be fully reproduced.\nResult: INCOMPLETE\n\n"@),
        no_controls("Cause"@),
        no_controls("Could not verify runtime context"@),
        no_controls("Administrator handoff\n"@),
        no_controls("  principal: "@),
        no_controls("What to do next\n  "@),
        no_controls("Candidate policy (administrator review required)\n"@),
        no_controls("  This addresses the reported denial only; another policy layer may still block the request.\n\n"@),
        no_controls("AWS error\n  "@),
        no_controls("RESULT\n  Exact denial reason unknown.\n\n"@),
        no_controls("Credential source\n  "@),
        no_controls("Notes"@),
        no_controls("aws-why could not obtain complete AWS authorization details.\n"@),
        no_controls("AWS CONFIGURATION FAILURE"@),
        no_controls("Fix the local AWS CLI configuration before investigating IAM."@),
        no_controls("AWS NETWORK FAILURE"@),
        no_controls("The request did not produce evidence of an IAM denial."@),
        no_controls("AWS RESOURCE NOT FOUND"@),
        no_controls("This is not evidence that an IAM permission is missing."@),
        no_controls("COMMAND FAILED"@),
        no_controls("aws-why found no reliable evidence of an IAM denial."@),
        no_controls("*"@),
        no_controls("  + ALLOWED  "@),
        no_controls("  - DENIED   "@),
        no_controls("  ? UNKNOWN  "@),
        no_controls(" — "@),
        no_controls("unknown:Unknown"@),
        no_controls("              policy: "@),
        no_controls("              missing context: "@),
        no_controls(", "@),
        no_controls("Resource\n  "@),
        no_controls("SIMULATED PERMISSIONS\n\n"@),
        no_controls("  policy source: "@),
        no_controls("\nSummary: "@),
        no_controls(" allowed, "@),
        no_controls(" denied, "@),
        no_controls(" unknown\n"@),
        no_controls("Note: "@),
        no_controls("Simulation only: this does not execute the actions or prove a live request will succeed.\n"@),
        no_controls("arn:aws:iam::"@),
        no_controls(":role/"@),
{
    lemma_text_phrases_1();
    lemma_text_phrases_2();
    lemma_text_phrases_3();
    lemma_text_phrases_4();
    lemma_text_phrases_5();
    lemma_text_phrases_6();
}

} // verus!
