use vstd::prelude::*;

use crate::reply::{failure, failure_view, HttpStatus, Reply, ReplyView};
use crate::store::DbError;

verus! {

/// The permission a member must hold in an organisation's section: a title
/// (the area, such as "staff") and a name (the operation, such as "delete").
pub struct OrgPermission {
    pub title: String,
    pub name: String,
}

impl Clone for OrgPermission {
    fn clone(&self) -> (r: Self)
        ensures
            r == *self,
    {
        OrgPermission { title: self.title.clone(), name: self.name.clone() }
    }
}

/// What a request must get through before the work it asks for is done.
pub enum Check {
    /// The request carries the claims of a signed-in user.
    Claims,
    /// The payload passes its validation.
    Validation,
    /// No section with the requested name exists yet.
    Uniqueness,
    /// The user holds the permission in the section the payload names.
    MemberAuthority(OrgPermission),
    /// The user holds the permission in the organisation named by the path,
    /// and the organisation's section was found.
    OrgAuthority(OrgPermission),
}

impl Clone for Check {
    fn clone(&self) -> (r: Self)
        ensures
            r == *self,
    {
        match self {
            Check::Claims => Check::Claims,
            Check::Validation => Check::Validation,
            Check::Uniqueness => Check::Uniqueness,
            Check::MemberAuthority(p) => Check::MemberAuthority(p.clone()),
            Check::OrgAuthority(p) => Check::OrgAuthority(p.clone()),
        }
    }
}

/// The outcome of asking whether a user holds a permission in a section.
#[derive(Clone, Copy, Debug, PartialEq, Eq, Structural)]
pub enum AuthorityCheck {
    Granted,
    Denied,
    /// The lookup itself failed.
    Failed,
}

impl AuthorityCheck {
    /// The outcome of a permission lookup that answers whether the user
    /// holds the permission, or fails.
    pub fn from_lookup(lookup: Result<bool, DbError>) -> (a: AuthorityCheck)
        ensures
            a == (match lookup {
                Ok(true) => AuthorityCheck::Granted,
                Ok(false) => AuthorityCheck::Denied,
                Err(_) => AuthorityCheck::Failed,
            }),
    {
        match lookup {
            Ok(true) => AuthorityCheck::Granted,
            Ok(false) => AuthorityCheck::Denied,
            Err(_) => AuthorityCheck::Failed,
        }
    }
}

/// The outcome of asking whether a user holds a permission in an organisation.
#[derive(Clone, Copy, Debug, PartialEq, Eq, Structural)]
pub enum OrgAccess {
    /// The permission is held and the organisation's section was found.
    Granted,
    /// The permission is held but the organisation's section was not found.
    SectionMissing,
    Denied,
    /// The lookup itself failed.
    Failed,
}

impl OrgAccess {
    /// The outcome of an organisation lookup that answers whether the user
    /// holds the permission and whether the organisation's section was
    /// found, or fails.
    pub fn from_lookup(lookup: Result<(bool, bool), DbError>) -> (a: OrgAccess)
        ensures
            a == (match lookup {
                Ok((true, true)) => OrgAccess::Granted,
                Ok((true, false)) => OrgAccess::SectionMissing,
                Ok((false, _)) => OrgAccess::Denied,
                Err(_) => OrgAccess::Failed,
            }),
    {
        match lookup {
            Ok((granted, found)) => if !granted {
                OrgAccess::Denied
            } else if found {
                OrgAccess::Granted
            } else {
                OrgAccess::SectionMissing
            },
            Err(_) => OrgAccess::Failed,
        }
    }
}

/// The outcome of carrying out a check.
pub enum Event {
    /// Whether the request carries claims.
    Claims(bool),
    /// The payload's validation: its error message when it fails.
    Validated(Result<(), String>),
    /// Whether a section with the requested name exists.
    Exists(bool),
    Authority(AuthorityCheck),
    Access(OrgAccess),
}

/// Whether `event` is the outcome of carrying out `check`.
pub open spec fn answers(check: Check, event: Event) -> bool {
    match check {
        Check::Claims => event is Claims,
        Check::Validation => event is Validated,
        Check::Uniqueness => event is Exists,
        Check::MemberAuthority(_) => event is Authority,
        Check::OrgAuthority(_) => event is Access,
    }
}

/// Whether `event` lets the request through.
pub open spec fn passes(event: Event) -> bool {
    match event {
        Event::Claims(present) => present,
        Event::Validated(r) => r is Ok,
        Event::Exists(taken) => !taken,
        Event::Authority(a) => a == AuthorityCheck::Granted,
        Event::Access(a) => a == OrgAccess::Granted,
    }
}

pub open spec fn msg_authorization_failure() -> Seq<char> {
    "Authorization failure!"@
}

pub open spec fn msg_section_exists() -> Seq<char> {
    "Similar section already exists"@
}

pub open spec fn msg_not_authorized() -> Seq<char> {
    "You're not authorized to perform this action!"@
}

pub open spec fn msg_authority_unverified() -> Seq<char> {
    "Could not verify your authority: An error occurred during the process!"@
}

pub open spec fn msg_section_missing() -> Seq<char> {
    "The section you are trying to access was not found!"@
}

/// The reply to a request that `event` stops.
pub open spec fn refusal(event: Event) -> ReplyView {
    match event {
        Event::Claims(_) => failure_view(HttpStatus::BadRequest, msg_authorization_failure()),
        Event::Validated(r) => failure_view(
            HttpStatus::ExpectationFailed,
            match r {
                Ok(_) => Seq::empty(),
                Err(m) => m@,
            },
        ),
        Event::Exists(_) => failure_view(HttpStatus::Conflict, msg_section_exists()),
        Event::Authority(a) => failure_view(
            HttpStatus::Unauthorized,
            if a == AuthorityCheck::Failed {
                msg_authority_unverified()
            } else {
                msg_not_authorized()
            },
        ),
        Event::Access(a) => if a == OrgAccess::SectionMissing {
            failure_view(HttpStatus::ExpectationFailed, msg_section_missing())
        } else if a == OrgAccess::Failed {
            failure_view(HttpStatus::Unauthorized, msg_authority_unverified())
        } else {
            failure_view(HttpStatus::Unauthorized, msg_not_authorized())
        },
    }
}

/// Whether `event` passes the request, as the gatekeeper decides it.
pub fn lets_through(event: &Event) -> (b: bool)
    ensures
        b == passes(*event),
{
    match event {
        Event::Claims(present) => *present,
        Event::Validated(r) => r.is_ok(),
        Event::Exists(taken) => !*taken,
        Event::Authority(a) => match a {
            AuthorityCheck::Granted => true,
            _ => false,
        },
        Event::Access(a) => match a {
            OrgAccess::Granted => true,
            _ => false,
        },
    }
}

/// The reply to a request that `event` stops.
pub fn refuse(event: Event) -> (r: Reply)
    requires
        !passes(event),
    ensures
        r@ == refusal(event),
        r@.consistent(),
        !r.success,
        event is Claims ==> r.status == HttpStatus::BadRequest && r.message@
            == "Authorization failure!"@,
        event matches Event::Validated(Err(m)) ==> r.status == HttpStatus::ExpectationFailed
            && r.message@ == m@,
        event is Exists ==> r.status == HttpStatus::Conflict && r.message@
            == "Similar section already exists"@,
        event == Event::Authority(AuthorityCheck::Denied) || event == Event::Access(
            OrgAccess::Denied,
        ) ==> r.status == HttpStatus::Unauthorized && r.message@
            == "You're not authorized to perform this action!"@,
        event == Event::Authority(AuthorityCheck::Failed) || event == Event::Access(
            OrgAccess::Failed,
        ) ==> r.status == HttpStatus::Unauthorized && r.message@
            == "Could not verify your authority: An error occurred during the process!"@,
        event == Event::Access(OrgAccess::SectionMissing) ==> r.status
            == HttpStatus::ExpectationFailed && r.message@
            == "The section you are trying to access was not found!"@,
{
    match event {
        Event::Claims(_) => failure(
            HttpStatus::BadRequest,
            String::from_str("Authorization failure!"),
        ),
        Event::Validated(r) => match r {
            Ok(_) => failure(HttpStatus::ExpectationFailed, String::new()),
            Err(m) => failure(HttpStatus::ExpectationFailed, m),
        },
        Event::Exists(_) => failure(
            HttpStatus::Conflict,
            String::from_str("Similar section already exists"),
        ),
        Event::Authority(a) => match a {
            AuthorityCheck::Failed => failure(
                HttpStatus::Unauthorized,
                String::from_str(
                    "Could not verify your authority: An error occurred during the process!",
                ),
            ),
            _ => failure(
                HttpStatus::Unauthorized,
                String::from_str("You're not authorized to perform this action!"),
            ),
        },
        Event::Access(a) => match a {
            OrgAccess::SectionMissing => failure(
                HttpStatus::ExpectationFailed,
                String::from_str("The section you are trying to access was not found!"),
            ),
            OrgAccess::Failed => failure(
                HttpStatus::Unauthorized,
                String::from_str(
                    "Could not verify your authority: An error occurred during the process!",
                ),
            ),
            _ => failure(
                HttpStatus::Unauthorized,
                String::from_str("You're not authorized to perform this action!"),
            ),
        },
    }
}

/// Whether `check` asks for the permission named `title` and `name` in a section.
pub open spec fn is_member_authority(check: Check, title: Seq<char>, name: Seq<char>) -> bool {
    check matches Check::MemberAuthority(p) && p.title@ == title && p.name@ == name
}

/// Whether `check` asks for the permission named `title` and `name` in an organisation.
pub open spec fn is_org_authority(check: Check, title: Seq<char>, name: Seq<char>) -> bool {
    check matches Check::OrgAuthority(p) && p.title@ == title && p.name@ == name
}

/// The permission named `title` and `name`.
pub fn permission(title: &str, name: &str) -> (p: OrgPermission)
    ensures
        p.title@ == title@,
        p.name@ == name@,
{
    OrgPermission { title: String::from_str(title), name: String::from_str(name) }
}

/// What the handler does next.
pub enum Action {
    /// Carry out this check and record its outcome.
    Run(Check),
    /// Answer the request with this reply; nothing more is done.
    Respond(Reply),
    /// Every check passed: do the work the request asks for.
    Proceed,
}

/// The checks a request goes through, in order, and how far it has got.
/// Each check is carried out by the caller, who records its outcome; the
/// first outcome that does not pass decides the reply.
pub struct Gatekeeper {
    checks: Vec<Check>,
    passed: usize,
    refused: bool,
    history: Ghost<Seq<Event>>,
}

impl Gatekeeper {
    pub closed spec fn checks(&self) -> Seq<Check> {
        self.checks@
    }

    /// How many checks the request has passed.
    pub closed spec fn passed(&self) -> nat {
        self.passed as nat
    }

    /// Whether a check has stopped the request.
    pub closed spec fn refused(&self) -> bool {
        self.refused
    }

    /// The outcomes recorded so far, in order.
    pub closed spec fn history(&self) -> Seq<Event> {
        self.history@
    }

    /// Whether every check has passed.
    pub open spec fn cleared(&self) -> bool {
        !self.refused() && self.passed() == self.checks().len()
    }

    /// Whether the request is waiting for the outcome of a check.
    pub open spec fn waiting(&self) -> bool {
        !self.refused() && self.passed() < self.checks().len()
    }

    /// The checks passed so far were answered by passing outcomes, in
    /// order, and a refusal was answered by the outcome that stopped it.
    pub open spec fn wf(&self) -> bool {
        &&& self.passed() <= self.checks().len()
        &&& self.history().len() == self.passed() + if self.refused() { 1nat } else { 0nat }
        &&& forall|i: int|
            0 <= i < self.passed() ==> answers(self.checks()[i], #[trigger] self.history()[i])
                && passes(self.history()[i])
        &&& self.refused() ==> {
            &&& self.passed() < self.checks().len()
            &&& answers(self.checks()[self.passed() as int], self.history().last())
            &&& !passes(self.history().last())
        }
    }

    /// The action that follows a gatekeeper in this state.
    pub open spec fn next_action_is(&self, action: Action) -> bool {
        if self.passed() < self.checks().len() {
            action == Action::Run(self.checks()[self.passed() as int])
        } else {
            action is Proceed
        }
    }

    /// A gatekeeper that has run none of its checks yet.
    pub open spec fn fresh(&self) -> bool {
        &&& self.wf()
        &&& self.passed() == 0
        &&& !self.refused()
        &&& self.history() == Seq::<Event>::empty()
    }

    /// A gatekeeper that has run none of `checks` yet.
    pub fn new(checks: Vec<Check>) -> (g: Gatekeeper)
        ensures
            g.fresh(),
            g.checks() == checks@,
    {
        Gatekeeper { checks, passed: 0, refused: false, history: Ghost(Seq::empty()) }
    }

    /// The first action: run the first check, or proceed when there is none.
    pub fn start(&self) -> (action: Action)
        requires
            self.wf(),
            !self.refused(),
        ensures
            self.next_action_is(action),
    {
        if self.passed < self.checks.len() {
            Action::Run(self.checks[self.passed].clone())
        } else {
            Action::Proceed
        }
    }

    /// Records the outcome of the pending check and says what follows: the
    /// next check, the work itself once every check has passed, or the
    /// reply that refuses the request.
    pub fn record(&mut self, event: Event) -> (action: Action)
        requires
            old(self).wf(),
            old(self).waiting(),
            answers(old(self).checks()[old(self).passed() as int], event),
        ensures
            final(self).wf(),
            final(self).checks() == old(self).checks(),
            final(self).history() == old(self).history().push(event),
            passes(event) ==> {
                &&& final(self).passed() == old(self).passed() + 1
                &&& !final(self).refused()
                &&& final(self).next_action_is(action)
            },
            !passes(event) ==> {
                &&& final(self).passed() == old(self).passed()
                &&& final(self).refused()
                &&& action matches Action::Respond(r) && r@ == refusal(event)
            },
    {
        let ghost before = self.history@;
        let total = self.checks.len();
        assert(self.passed < total);
        if lets_through(&event) {
            self.history = Ghost(before.push(event));
            self.passed = self.passed + 1;
            assert(self.history@[self.passed - 1] == event);
            self.start()
        } else {
            self.history = Ghost(before.push(event));
            self.refused = true;
            Action::Respond(refuse(event))
        }
    }
}

/// Which outcomes let a request through: present claims, a valid
/// payload, a free name, a granted permission; every other outcome stops it.
pub proof fn outcomes_that_pass(m: String)
    ensures
        passes(Event::Claims(true)),
        !passes(Event::Claims(false)),
        passes(Event::Validated(Ok(()))),
        !passes(Event::Validated(Err(m))),
        passes(Event::Exists(false)),
        !passes(Event::Exists(true)),
        passes(Event::Authority(AuthorityCheck::Granted)),
        !passes(Event::Authority(AuthorityCheck::Denied)),
        !passes(Event::Authority(AuthorityCheck::Failed)),
        passes(Event::Access(OrgAccess::Granted)),
        !passes(Event::Access(OrgAccess::SectionMissing)),
        !passes(Event::Access(OrgAccess::Denied)),
        !passes(Event::Access(OrgAccess::Failed)),
{
}

/// How a stopped request is answered: missing claims with 400, an invalid
/// payload with 417 and the validation's own message, a taken name with
/// 409, a refused or unverifiable permission with 401, and an
/// organisation whose section is missing with 417.
pub proof fn refusals_answer(m: String)
    ensures
        refusal(Event::Claims(false)).status == HttpStatus::BadRequest,
        refusal(Event::Claims(false)).message == "Authorization failure!"@,
        refusal(Event::Validated(Err(m))).status == HttpStatus::ExpectationFailed,
        refusal(Event::Validated(Err(m))).message == m@,
        refusal(Event::Exists(true)).status == HttpStatus::Conflict,
        refusal(Event::Exists(true)).message == "Similar section already exists"@,
        refusal(Event::Authority(AuthorityCheck::Denied)).status == HttpStatus::Unauthorized,
        refusal(Event::Authority(AuthorityCheck::Denied)).message
            == "You're not authorized to perform this action!"@,
        refusal(Event::Authority(AuthorityCheck::Failed)).status == HttpStatus::Unauthorized,
        refusal(Event::Authority(AuthorityCheck::Failed)).message
            == "Could not verify your authority: An error occurred during the process!"@,
        refusal(Event::Access(OrgAccess::Denied)) == refusal(
            Event::Authority(AuthorityCheck::Denied),
        ),
        refusal(Event::Access(OrgAccess::Failed)) == refusal(
            Event::Authority(AuthorityCheck::Failed),
        ),
        refusal(Event::Access(OrgAccess::SectionMissing)).status == HttpStatus::ExpectationFailed,
        refusal(Event::Access(OrgAccess::SectionMissing)).message
            == "The section you are trying to access was not found!"@,
{
}

/// A request is refused only with a failed reply: never with success, never with status 200.
pub proof fn refusals_are_failures(event: Event)
    requires
        !passes(event),
    ensures
        refusal(event).consistent(),
        !refusal(event).success,
        refusal(event).status != HttpStatus::Success,
{
}

/// When the work a request asks for is done, every check ran in order and
/// let the request through: the claims were present, the payload was
/// valid, the name was free and the permissions were granted, for each of
/// these checks that the request goes through.
pub proof fn cleared_means_every_check_passed(g: Gatekeeper)
    requires
        g.wf(),
        g.cleared(),
    ensures
        g.history().len() == g.checks().len(),
        forall|i: int|
            0 <= i < g.checks().len() ==> answers(g.checks()[i], #[trigger] g.history()[i])
                && passes(g.history()[i]),
        forall|i: int|
            0 <= i < g.checks().len() && g.checks()[i] is Claims ==> #[trigger] g.history()[i]
                == Event::Claims(true),
        forall|i: int|
            0 <= i < g.checks().len() && g.checks()[i] is Uniqueness ==> #[trigger] g.history()[i]
                == Event::Exists(false),
        forall|i: int|
            0 <= i < g.checks().len() && g.checks()[i] is MemberAuthority ==> #[trigger] g.history()[i]
                == Event::Authority(AuthorityCheck::Granted),
        forall|i: int|
            0 <= i < g.checks().len() && g.checks()[i] is OrgAuthority ==> #[trigger] g.history()[i]
                == Event::Access(OrgAccess::Granted),
        forall|i: int|
            0 <= i < g.checks().len() && g.checks()[i] is Validation ==> #[trigger] g.history()[i]
                matches Event::Validated(Ok(_)),
{
    assert forall|i: int| 0 <= i < g.checks().len() implies answers(g.checks()[i], #[trigger] g.history()[i])
        && passes(g.history()[i]) by {}
}

/// A refused request was stopped by the first check that did not let it
/// through: every earlier check passed, in order, and the last outcome
/// recorded answers the check it stopped at and fails it.
pub proof fn refused_at_first_failure(g: Gatekeeper)
    requires
        g.wf(),
        g.refused(),
    ensures
        g.passed() < g.checks().len(),
        g.history().len() == g.passed() + 1,
        forall|i: int| 0 <= i < g.passed() ==> passes(#[trigger] g.history()[i]),
        answers(g.checks()[g.passed() as int], g.history()[g.passed() as int]),
        !passes(g.history()[g.passed() as int]),
{
}

} // verus!
