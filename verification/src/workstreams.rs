use vstd::prelude::*;

verus! {

use vstd::string::StrSliceExecFns;
use crate::auth::address_bytes_of;
use crate::auth::parse_address;
use crate::errors::AuthError;

/// The kind of a workstream.
#[derive(Clone, Copy, Debug, PartialEq, Eq, Structural)]
pub enum WorkstreamType {
    /// An ongoing role.
    Role,
    /// A one-off grant.
    Grant,
}

/// The currency a workstream pays in.
#[derive(Clone, Copy, Debug, PartialEq, Eq, Structural)]
pub enum PaymentCurrency {
    /// The Dai stablecoin.
    Dai,
}

/// The lifecycle state of a workstream.
#[derive(Clone, Copy, Debug, PartialEq, Eq, Structural)]
pub enum WorkstreamState {
    /// Funded and running.
    Funded,
    /// Open for applications.
    Open,
    /// Concluded.
    Finished,
}

/// The lifecycle state of an application to a workstream.
#[derive(Clone, Copy, Debug, PartialEq, Eq, Structural)]
pub enum ApplicationState {
    /// Accepted by the workstream's creator.
    Accepted,
    /// Rejected by the workstream's creator.
    Rejected,
    /// Awaiting a decision.
    Pending,
}

impl Default for WorkstreamState {
    /// A new workstream starts out open.
    fn default() -> (r: Self)
        ensures
            r == WorkstreamState::Open,
    {
        WorkstreamState::Open
    }
}

impl Default for ApplicationState {
    /// A new application starts out pending.
    fn default() -> (r: Self)
        ensures
            r == ApplicationState::Pending,
    {
        ApplicationState::Pending
    }
}

/// A receiver of a workstream's payment stream.
pub struct Receiver {
    /// The receiving 20-byte address.
    pub address: Vec<u8>,
    /// The payment rate toward this receiver.
    pub payment_rate: u32,
}

/// The payment-stream configuration of a workstream.
pub struct DripsConfig {
    /// The payment-stream account number.
    pub drips_acct: u32,
    /// The currency paid in.
    pub payment_currency: PaymentCurrency,
    /// The 20-byte address of the hub contract payments run through;
    /// filled in from deployment configuration, never from user input.
    pub drips_hub: Vec<u8>,
}

/// A workstream record. Times are milliseconds since the Unix epoch.
pub struct Workstream {
    /// The record identifier.
    pub id: String,
    /// The kind of the workstream.
    pub wtype: WorkstreamType,
    /// The 20-byte address of the creator.
    pub creator: Vec<u8>,
    /// When the record was created.
    pub created_at: i64,
    /// When work starts, if declared.
    pub starting_at: Option<i64>,
    /// When work ends, if declared.
    pub ending_at: Option<i64>,
    /// A human-readable description.
    pub description: String,
    /// The payment-stream configuration.
    pub drips_config: DripsConfig,
    /// The lifecycle state.
    pub state: WorkstreamState,
}

/// An application to a workstream. Times are milliseconds since the
/// Unix epoch.
pub struct Application {
    /// The record identifier.
    pub id: String,
    /// A short title.
    pub title: String,
    /// A human-readable description.
    pub description: String,
    /// The workstream applied to.
    pub workstream_id: String,
    /// The 20-byte address of the applicant.
    pub creator: Vec<u8>,
    /// The proposed receivers of the payment stream.
    pub receivers: Vec<Receiver>,
    /// The currency paid in.
    pub payment_currency: PaymentCurrency,
    /// When the record was created.
    pub created_at: i64,
    /// When work starts, if declared.
    pub starting_at: Option<i64>,
    /// When work ends, if declared.
    pub ending_at: Option<i64>,
    /// The lifecycle state.
    pub state: ApplicationState,
}

/// A declared validity window is sane when neither its start nor its
/// end lies in the past.
pub open spec fn dates_ok(starting_at: Option<i64>, ending_at: Option<i64>, now: i64) -> bool {
    &&& (starting_at matches Some(st) ==> st >= now)
    &&& (ending_at matches Some(en) ==> en >= now)
}

/// Checks a record's validity window against the current time: a
/// declared start or end in the past is refused.
pub fn check_dates(starting_at: &Option<i64>, ending_at: &Option<i64>, now_millis: i64) -> (r:
    Result<(), AuthError>)
    ensures
        match r {
            Ok(_) => dates_ok(*starting_at, *ending_at, now_millis),
            Err(e) => !dates_ok(*starting_at, *ending_at, now_millis) && e
                == AuthError::MalformedRequest,
        },
{
    match starting_at {
        Some(st) => {
            if now_millis > *st {
                return Err(AuthError::MalformedRequest);
            }
        },
        None => {},
    }
    match ending_at {
        Some(en) => {
            if *en < now_millis {
                return Err(AuthError::MalformedRequest);
            }
        },
        None => {},
    }
    Ok(())
}

/// The ASCII-lowercase code point of a character.
pub open spec fn lower_code(c: char) -> int {
    if 65 <= c as int && c as int <= 90 {
        c as int + 32
    } else {
        c as int
    }
}

/// Whether a string, folded to ASCII lowercase, reads as the target.
pub open spec fn matches_ascii_lower(s: Seq<char>, t: Seq<char>) -> bool {
    s.len() == t.len() && forall|i: int| 0 <= i < s.len() ==> lower_code(#[trigger] s[i]) == t[i] as int
}

/// Compares a string against a target, folding ASCII letters of the
/// first to lowercase.
fn eq_ascii_lower(s: &str, t: &str) -> (r: bool)
    ensures
        r == matches_ascii_lower(s@, t@),
{
    let n = s.unicode_len();
    let m = t.unicode_len();
    if n != m {
        return false;
    }
    let mut i: usize = 0;
    while i < n
        invariant
            n == s@.len(),
            n == t@.len(),
            i <= n,
            forall|j: int| 0 <= j < i ==> lower_code(#[trigger] s@[j]) == t@[j] as int,
        decreases n - i,
    {
        let c = s.get_char(i) as u32;
        let d = t.get_char(i) as u32;
        let folded: u32 = if 65 <= c && c <= 90 {
            c + 32
        } else {
            c
        };
        if folded != d {
            return false;
        }
        i = i + 1;
    }
    true
}

impl WorkstreamState {
    /// Parses a state name, case-insensitively for ASCII letters:
    /// `funded`, `open` or `finished`.
    pub fn from_str(input: &str) -> (r: Result<WorkstreamState, AuthError>)
        ensures
            match r {
                Ok(st) => match st {
                    WorkstreamState::Funded => matches_ascii_lower(input@, "funded"@),
                    WorkstreamState::Open => matches_ascii_lower(input@, "open"@),
                    WorkstreamState::Finished => matches_ascii_lower(input@, "finished"@),
                },
                Err(e) => {
                    &&& e == AuthError::MalformedRequest
                    &&& !matches_ascii_lower(input@, "funded"@)
                    &&& !matches_ascii_lower(input@, "open"@)
                    &&& !matches_ascii_lower(input@, "finished"@)
                },
            },
    {
        if eq_ascii_lower(input, "funded") {
            Ok(WorkstreamState::Funded)
        } else if eq_ascii_lower(input, "open") {
            Ok(WorkstreamState::Open)
        } else if eq_ascii_lower(input, "finished") {
            Ok(WorkstreamState::Finished)
        } else {
            Err(AuthError::MalformedRequest)
        }
    }
}

/// Relies on uuid's version-4 generator, `Uuid::new_v4`, rendered in
/// the canonical hyphenated form of 36 characters. Nothing more is
/// assumed of a fresh random identifier.
#[verifier::external_body]
fn new_record_id() -> (r: String)
    ensures
        r@.len() == 36,
{
    uuid::Uuid::new_v4().to_string()
}

impl Workstream {
    /// Replaces the caller-editable fields of a stored workstream with
    /// those of a newly submitted one, after checking the submitted
    /// validity window. The identifier, creator and creation time never
    /// change; the submitted payment configuration is taken as given,
    /// there being no on-chain check to refuse it.
    pub fn update(old_workstream: &mut Workstream, new_workstream: Workstream, now_millis: i64) -> (r:
        Result<(), AuthError>)
        ensures
            match r {
                Ok(_) => {
                    &&& dates_ok(new_workstream.starting_at, new_workstream.ending_at, now_millis)
                    &&& final(old_workstream).id == old(old_workstream).id
                    &&& final(old_workstream).creator == old(old_workstream).creator
                    &&& final(old_workstream).created_at == old(old_workstream).created_at
                    &&& final(old_workstream).wtype == new_workstream.wtype
                    &&& final(old_workstream).starting_at == new_workstream.starting_at
                    &&& final(old_workstream).ending_at == new_workstream.ending_at
                    &&& final(old_workstream).description == new_workstream.description
                    &&& final(old_workstream).drips_config == new_workstream.drips_config
                    &&& final(old_workstream).state == new_workstream.state
                },
                Err(e) => {
                    &&& e == AuthError::MalformedRequest
                    &&& !dates_ok(new_workstream.starting_at, new_workstream.ending_at, now_millis)
                    &&& *final(old_workstream) == *old(old_workstream)
                },
            },
    {
        match check_dates(&new_workstream.starting_at, &new_workstream.ending_at, now_millis) {
            Ok(_) => {},
            Err(e) => {
                return Err(e);
            },
        }
        old_workstream.drips_config = new_workstream.drips_config;
        old_workstream.starting_at = new_workstream.starting_at;
        old_workstream.ending_at = new_workstream.ending_at;
        old_workstream.description = new_workstream.description;
        old_workstream.wtype = new_workstream.wtype;
        old_workstream.state = new_workstream.state;
        Ok(())
    }

    /// Fills the server-assigned fields of a newly submitted
    /// workstream: a fresh identifier, the creator parsed from the
    /// request path, the creation time, the open state, and the hub
    /// address taken from deployment configuration — never from the
    /// submission. Refused when the creator or hub address does not
    /// parse, no hub is configured, or the validity window is not sane.
    pub fn populate(
        workstream: &mut Workstream,
        user: &String,
        drips_hub: &Option<String>,
        now_millis: i64,
    ) -> (r: Result<String, AuthError>)
        ensures
            match r {
                Ok(id) => {
                    &&& address_bytes_of(user@) matches Some(creator) && final(workstream).creator@ == creator
                    &&& *drips_hub matches Some(h) && address_bytes_of(h@) matches Some(hub)
                        && final(workstream).drips_config.drips_hub@ == hub
                    &&& dates_ok(
                        old(workstream).starting_at,
                        old(workstream).ending_at,
                        now_millis,
                    )
                    &&& final(workstream).id == id
                    &&& id@.len() == 36
                    &&& final(workstream).created_at == now_millis
                    &&& final(workstream).state == WorkstreamState::Open
                    &&& final(workstream).wtype == old(workstream).wtype
                    &&& final(workstream).starting_at == old(workstream).starting_at
                    &&& final(workstream).ending_at == old(workstream).ending_at
                    &&& final(workstream).description == old(workstream).description
                    &&& final(workstream).drips_config.drips_acct == old(workstream).drips_config.drips_acct
                    &&& final(workstream).drips_config.payment_currency == old(workstream).drips_config.payment_currency
                },
                Err(e) => {
                    &&& e == AuthError::MalformedRequest
                    &&& *final(workstream) == *old(workstream)
                    &&& !({
                        &&& address_bytes_of(user@) is Some
                        &&& *drips_hub matches Some(h) && address_bytes_of(h@) is Some
                        &&& dates_ok(
                            old(workstream).starting_at,
                            old(workstream).ending_at,
                            now_millis,
                        )
                    })
                },
            },
    {
        let creator = match parse_address(user) {
            Ok(v) => v,
            Err(e) => {
                return Err(e);
            },
        };
        let hub = match drips_hub {
            Some(h) => match parse_address(h) {
                Ok(v) => v,
                Err(e) => {
                    return Err(e);
                },
            },
            None => {
                return Err(AuthError::MalformedRequest);
            },
        };
        match check_dates(&workstream.starting_at, &workstream.ending_at, now_millis) {
            Ok(_) => {},
            Err(e) => {
                return Err(e);
            },
        }
        let id = new_record_id();
        workstream.id = id.clone();
        workstream.creator = creator;
        workstream.state = WorkstreamState::Open;
        workstream.created_at = now_millis;
        workstream.drips_config.drips_hub = hub;
        Ok(id)
    }
}

impl Application {
    /// Fills the server-assigned fields of a newly submitted
    /// application: a fresh identifier, the workstream applied to, the
    /// applicant parsed from the request path, the creation time and
    /// the pending state. Refused when the applicant address does not
    /// parse or the validity window is not sane.
    pub fn populate(application: &mut Application, user: &String, workstream: &String, now_millis: i64) -> (r:
        Result<(), AuthError>)
        ensures
            match r {
                Ok(_) => {
                    &&& address_bytes_of(user@) matches Some(creator) && final(application).creator@ == creator
                    &&& dates_ok(
                        old(application).starting_at,
                        old(application).ending_at,
                        now_millis,
                    )
                    &&& final(application).id@.len() == 36
                    &&& final(application).workstream_id == workstream
                    &&& final(application).created_at == now_millis
                    &&& final(application).state == ApplicationState::Pending
                    &&& final(application).title == old(application).title
                    &&& final(application).description == old(application).description
                    &&& final(application).receivers == old(application).receivers
                    &&& final(application).payment_currency == old(application).payment_currency
                    &&& final(application).starting_at == old(application).starting_at
                    &&& final(application).ending_at == old(application).ending_at
                },
                Err(e) => {
                    &&& e == AuthError::MalformedRequest
                    &&& *final(application) == *old(application)
                    &&& !(address_bytes_of(user@) is Some && dates_ok(
                        old(application).starting_at,
                        old(application).ending_at,
                        now_millis,
                    ))
                },
            },
    {
        let creator = match parse_address(user) {
            Ok(v) => v,
            Err(e) => {
                return Err(e);
            },
        };
        match check_dates(&application.starting_at, &application.ending_at, now_millis) {
            Ok(_) => {},
            Err(e) => {
                return Err(e);
            },
        }
        application.created_at = now_millis;
        application.id = new_record_id();
        application.workstream_id = clone_string(workstream);
        application.creator = creator;
        application.state = ApplicationState::Pending;
        Ok(())
    }

    /// Replaces a stored application with a newly submitted one, after
    /// checking the submitted validity window; the identifier is keyed
    /// elsewhere, and the workstream, applicant and creation time are
    /// kept from the stored record.
    pub fn update(old_application: &Application, new_application: &mut Application, now_millis: i64) -> (r:
        Result<(), AuthError>)
        ensures
            match r {
                Ok(_) => {
                    &&& dates_ok(
                        old(new_application).starting_at,
                        old(new_application).ending_at,
                        now_millis,
                    )
                    &&& final(new_application).workstream_id == old_application.workstream_id
                    &&& final(new_application).creator@ == old_application.creator@
                    &&& final(new_application).created_at == old_application.created_at
                    &&& final(new_application).id == old(new_application).id
                    &&& final(new_application).title == old(new_application).title
                    &&& final(new_application).description == old(new_application).description
                    &&& final(new_application).receivers == old(new_application).receivers
                    &&& final(new_application).payment_currency == old(new_application).payment_currency
                    &&& final(new_application).starting_at == old(new_application).starting_at
                    &&& final(new_application).ending_at == old(new_application).ending_at
                    &&& final(new_application).state == old(new_application).state
                },
                Err(e) => {
                    &&& e == AuthError::MalformedRequest
                    &&& !dates_ok(
                        old(new_application).starting_at,
                        old(new_application).ending_at,
                        now_millis,
                    )
                    &&& *final(new_application) == *old(new_application)
                },
            },
    {
        match check_dates(&new_application.starting_at, &new_application.ending_at, now_millis) {
            Ok(_) => {},
            Err(e) => {
                return Err(e);
            },
        }
        new_application.workstream_id = clone_string(&old_application.workstream_id);
        new_application.creator = clone_bytes(&old_application.creator);
        new_application.created_at = old_application.created_at;
        Ok(())
    }
}

/// Copies a string.
fn clone_string(s: &String) -> (r: String)
    ensures
        r == s,
{
    s.clone()
}

/// Copies a byte string.
fn clone_bytes(v: &Vec<u8>) -> (r: Vec<u8>)
    ensures
        r@ == v@,
{
    let mut out: Vec<u8> = Vec::new();
    let mut i: usize = 0;
    while i < v.len()
        invariant
            i <= v@.len(),
            out@ == v@.take(i as int),
        decreases v@.len() - i,
    {
        out.push(v[i]);
        proof {
            assert(v@.take(i as int).push(v@[i as int]) =~= v@.take(i as int + 1));
        }
        i = i + 1;
    }
    proof {
        assert(v@.take(v@.len() as int) =~= v@);
    }
    out
}

} // verus!
