//! The decision on privileged tokens: what each token scope asks to be done.

use vstd::prelude::*;
use crate::handlers::error::{HandlerError, HandlerResult, ServiceError};
use crate::ids::AccountId;
use crate::token::{DecodedToken, TokenScope};

verus! {

/// Account handlers that **do require** escalated privileges.
pub struct AuthorizationHandler;

/// One call that a privileged token asks for. The caller runs them in
/// order and stops at the first that fails, answering its error.
#[derive(Debug)]
pub enum AuthAction {
    /// Revoke the token; fails if it was revoked already.
    CheckAndRevokeToken,
    /// Revoke the account's tokens of this scope; fails if the token was
    /// revoked already.
    CheckAndRevokeAccountTokensWithScope,
    /// Revoke all the account's tokens; fails if the token was revoked
    /// already.
    CheckAndRevokeAccountTokens,
    /// Lift the sending limit of the e-mail address.
    ClearEmailLimit { email: String },
    /// Give the quota unit that sending to the e-mail used back to the
    /// requesting IP.
    RefundIpQuota { email: String },
    /// Add the e-mail to the account.
    AddEmail { account_id: AccountId, email: String },
    /// Move the primary e-mail of the account.
    ChangePrimaryEmail { account_id: AccountId, current_primary_email: String, new_primary_email: String },
    /// Complete the sign-up of the account, verifying the e-mail.
    CompleteSignup { account_id: AccountId, email: String },
}

/// The calls that a token of this scope, issued for `sub`, asks for;
/// `None` for a session token, which is refused here.
pub open spec fn auth_actions(sub: AccountId, scope: TokenScope) -> Option<Seq<AuthAction>> {
    match scope {
        TokenScope::Session => None,
        TokenScope::EmailVerificationSession => None,
        TokenScope::AddEmail { email } => Some(seq![
            AuthAction::CheckAndRevokeToken,
            AuthAction::ClearEmailLimit { email },
            AuthAction::RefundIpQuota { email },
            AuthAction::AddEmail { account_id: sub, email },
        ]),
        TokenScope::ChangePrimaryEmail { current_primary_email, new_primary_email } => Some(seq![
            AuthAction::CheckAndRevokeAccountTokensWithScope,
            AuthAction::ChangePrimaryEmail { account_id: sub, current_primary_email, new_primary_email },
        ]),
        TokenScope::CompleteSignup { email } => Some(seq![
            AuthAction::CheckAndRevokeAccountTokens,
            AuthAction::ClearEmailLimit { email },
            AuthAction::RefundIpQuota { email },
            AuthAction::CompleteSignup { account_id: sub, email },
        ]),
    }
}

impl AuthorizationHandler {
    /// Handles a privileged token. `decoded` is the outcome of decoding it.
    /// A session token is refused as unauthorized; every other scope gives
    /// the calls to make, in order.
    pub fn auth(self, decoded: Result<DecodedToken, ServiceError>) -> (r: HandlerResult<Vec<AuthAction>>)
        ensures
            match decoded {
                Err(e) => r == Err::<Vec<AuthAction>, HandlerError>(HandlerError::Service(e)),
                Ok(t) => match auth_actions(t.id, t.scope) {
                    None => r == Err::<Vec<AuthAction>, HandlerError>(HandlerError::Unauthorized),
                    Some(actions) => r matches Ok(v) && v@ == actions,
                },
            },
    {
        let decoded_token = match decoded {
            Err(e) => return Err(HandlerError::Service(e)),
            Ok(t) => t,
        };
        let sub = decoded_token.id;
        match decoded_token.scope {
            TokenScope::Session | TokenScope::EmailVerificationSession => Err(HandlerError::Unauthorized),
            TokenScope::AddEmail { email } => {
                let v = vec![
                    AuthAction::CheckAndRevokeToken,
                    AuthAction::ClearEmailLimit { email: email.clone() },
                    AuthAction::RefundIpQuota { email: email.clone() },
                    AuthAction::AddEmail { account_id: sub, email },
                ];
                assert(v@ =~= auth_actions(decoded_token.id, decoded_token.scope)->0);
                Ok(v)
            },
            TokenScope::ChangePrimaryEmail { current_primary_email, new_primary_email } => {
                let v = vec![
                    AuthAction::CheckAndRevokeAccountTokensWithScope,
                    AuthAction::ChangePrimaryEmail { account_id: sub, current_primary_email, new_primary_email },
                ];
                assert(v@ =~= auth_actions(decoded_token.id, decoded_token.scope)->0);
                Ok(v)
            },
            TokenScope::CompleteSignup { email } => {
                let v = vec![
                    AuthAction::CheckAndRevokeAccountTokens,
                    AuthAction::ClearEmailLimit { email: email.clone() },
                    AuthAction::RefundIpQuota { email: email.clone() },
                    AuthAction::CompleteSignup { account_id: sub, email },
                ];
                assert(v@ =~= auth_actions(decoded_token.id, decoded_token.scope)->0);
                Ok(v)
            },
        }
    }
}

/// The calls of a privileged token still to make.
#[derive(Debug)]
pub struct AuthFlow {
    remaining: Vec<AuthAction>,
}

impl AuthFlow {
    /// The calls still to make, in order.
    pub closed spec fn remaining(&self) -> Seq<AuthAction> {
        self.remaining@
    }
}

/// What handling a privileged token does next: ask for a call, or answer.
#[derive(Debug)]
pub enum AuthNext {
    Call(AuthAction),
    Finish(HandlerResult<()>),
}

/// With `remaining` calls left and the last one successful: the next call,
/// or success when none is left.
pub open spec fn auth_continue(remaining: Seq<AuthAction>) -> (Seq<AuthAction>, AuthNext) {
    if remaining.len() == 0 {
        (remaining, AuthNext::Finish(Ok(())))
    } else {
        (remaining.drop_first(), AuthNext::Call(remaining[0]))
    }
}

fn continue_with(mut remaining: Vec<AuthAction>) -> (r: (AuthFlow, AuthNext))
    ensures
        (r.0.remaining(), r.1) == auth_continue(remaining@),
{
    if remaining.len() == 0 {
        (AuthFlow { remaining }, AuthNext::Finish(Ok(())))
    } else {
        let ghost before = remaining@;
        let first = remaining.remove(0);
        assert(remaining@ =~= before.drop_first());
        (AuthFlow { remaining }, AuthNext::Call(first))
    }
}

impl AuthorizationHandler {
    /// Starts handling a privileged token, `decoded` being the outcome of
    /// decoding it: a failed decoding or a session token answers at once;
    /// otherwise the first call of the token's scope is asked for.
    pub fn auth_start(self, decoded: Result<DecodedToken, ServiceError>) -> (r: (AuthFlow, AuthNext))
        ensures
            match decoded {
                Err(e) => r.0.remaining().len() == 0 && r.1 == AuthNext::Finish(Err(HandlerError::Service(e))),
                Ok(t) => match auth_actions(t.id, t.scope) {
                    None => r.0.remaining().len() == 0 && r.1 == AuthNext::Finish(Err(HandlerError::Unauthorized)),
                    Some(actions) => (r.0.remaining(), r.1) == auth_continue(actions),
                },
            },
    {
        match AuthorizationHandler.auth(decoded) {
            Err(e) => (AuthFlow { remaining: Vec::new() }, AuthNext::Finish(Err(e))),
            Ok(actions) => continue_with(actions),
        }
    }

    /// Takes the outcome of the last call: a failed call ends the handling
    /// with its error and no further call; a successful one leads to the
    /// next call, or to success once none is left.
    pub fn auth_step(self, flow: AuthFlow, outcome: Result<(), ServiceError>) -> (r: (AuthFlow, AuthNext))
        ensures
            match outcome {
                Err(e) => r.0.remaining().len() == 0 && r.1 == AuthNext::Finish(Err(HandlerError::Service(e))),
                Ok(()) => (r.0.remaining(), r.1) == auth_continue(flow.remaining()),
            },
    {
        match outcome {
            Err(e) => (AuthFlow { remaining: Vec::new() }, AuthNext::Finish(Err(HandlerError::Service(e)))),
            Ok(()) => continue_with(flow.remaining),
        }
    }
}

/// Every privileged token revokes before it acts: the first call it asks
/// for is a revocation, so a token is acted on at most once.
pub proof fn law_auth_revokes_first(sub: AccountId, scope: TokenScope)
    requires
        auth_actions(sub, scope) is Some,
    ensures
        ({
            let actions = auth_actions(sub, scope)->0;
            &&& actions.len() > 0
            &&& actions[0] is CheckAndRevokeToken || actions[0] is CheckAndRevokeAccountTokensWithScope
                || actions[0] is CheckAndRevokeAccountTokens
        }),
{
}

/// A session token never authorizes a privileged action.
pub proof fn law_session_tokens_refused(sub: AccountId, scope: TokenScope)
    requires
        scope is Session || scope is EmailVerificationSession,
    ensures
        auth_actions(sub, scope) is None,
{
}

/// The address whose sending limits a token's confirmation e-mail used:
/// the one that an add-e-mail or complete-sign-up token carries.
pub open spec fn confirmed_address(scope: TokenScope) -> Option<String> {
    match scope {
        TokenScope::AddEmail { email } => Some(email),
        TokenScope::CompleteSignup { email } => Some(email),
        _ => None,
    }
}

/// A token that confirms an address gives back the limits its e-mail used:
/// after revoking, the plan lifts the address limit and then refunds the IP
/// quota of that same address, each exactly once, and only then acts on the
/// account, last, for the token's account and address.
pub proof fn law_auth_gives_back_sending_limits(sub: AccountId, scope: TokenScope, e: String)
    requires
        confirmed_address(scope) == Some(e),
    ensures
        ({
            let a = auth_actions(sub, scope)->0;
            &&& auth_actions(sub, scope) is Some
            &&& a.len() == 4
            &&& a[1] == AuthAction::ClearEmailLimit { email: e }
            &&& a[2] == AuthAction::RefundIpQuota { email: e }
            &&& forall|k: int| 0 <= k < a.len() && #[trigger] a[k] is RefundIpQuota ==> k == 2
            &&& forall|k: int| 0 <= k < a.len() && #[trigger] a[k] is ClearEmailLimit ==> k == 1
            &&& scope is AddEmail ==> a[3] == AuthAction::AddEmail { account_id: sub, email: e }
            &&& scope is CompleteSignup ==> a[3] == AuthAction::CompleteSignup { account_id: sub, email: e }
        }),
{
    let a = auth_actions(sub, scope)->0;
    assert forall|k: int| 0 <= k < a.len() && #[trigger] a[k] is RefundIpQuota implies k == 2 by {
        assert(k == 0 || k == 1 || k == 2 || k == 3);
    }
    assert forall|k: int| 0 <= k < a.len() && #[trigger] a[k] is ClearEmailLimit implies k == 1 by {
        assert(k == 0 || k == 1 || k == 2 || k == 3);
    }
}

/// A primary e-mail change token touches no sending limit: after revoking
/// the account's tokens of its kind, it moves the primary e-mail of the
/// token's account from the token's current address to its new one.
pub proof fn law_auth_change_primary_email_moves_the_pair(sub: AccountId, current: String, new: String)
    ensures
        ({
            let a = auth_actions(sub, TokenScope::ChangePrimaryEmail { current_primary_email: current, new_primary_email: new })->0;
            &&& a.len() == 2
            &&& a[0] is CheckAndRevokeAccountTokensWithScope
            &&& a[1] == AuthAction::ChangePrimaryEmail { account_id: sub, current_primary_email: current, new_primary_email: new }
        }),
{
}

} // verus!
