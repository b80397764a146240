//! The service's health: which stores are asked, and what their answers say
//! of the service as a whole.

use crate::registrar::MONITORED_ZONES_QUERY_VIEW;
use crate::zone::WEATHER_QUERY_VIEW;
use vstd::prelude::*;
use vstd::string::StringExecFns;

verus! {

/// How a service, or the system as a whole, is doing.
#[derive(Debug, Clone, Copy, PartialEq, Eq, Hash, Structural)]
pub enum HealthStatus {
    Up,
    NotReady,
    Error,
    Down,
}

impl HealthStatus {
    /// The HTTP status that reports each state of health.
    pub open spec fn http_status(self) -> u16 {
        match self {
            HealthStatus::Up => 200,
            HealthStatus::Error => 500,
            HealthStatus::Down => 503,
            HealthStatus::NotReady => 503,
        }
    }

    /// The HTTP status that reports this state of health.
    pub fn status_code(&self) -> (res: u16)
        ensures
            res == self.http_status(),
    {
        match self {
            HealthStatus::Up => 200,
            HealthStatus::Error => 500,
            HealthStatus::Down => 503,
            HealthStatus::NotReady => 503,
        }
    }
}

/// The report of the system's health.
#[derive(Debug, Clone, Copy, PartialEq, Eq, Structural)]
pub struct HealthStatusReport {
    pub status: HealthStatus,
}

impl HealthStatusReport {
    /// The report of `status`.
    pub fn new(status: HealthStatus) -> (res: Self)
        ensures
            res.status == status,
    {
        HealthStatusReport { status }
    }
}

/// The store of the events.
pub const MODEL: &'static str = "model";

/// The store of the weather read model.
pub const WEATHER_VIEW: &'static str = "weather_view";

/// The store of the read model of the monitored zones.
pub const MONITORED_ZONES_VIEW: &'static str = "monitored_zones_view";

/// The statement that selects `column` from `table`, as the
/// `sql_query_builder` crate writes it.
pub uninterp spec fn select_statement(column: Seq<char>, table: Seq<char>) -> Seq<char>;

/// True for the letters of the English alphabet, the digits and the
/// underscore.
pub open spec fn is_word_char(c: char) -> bool {
    let code = c as u32;
    ||| 'a' as u32 <= code <= 'z' as u32
    ||| 'A' as u32 <= code <= 'Z' as u32
    ||| '0' as u32 <= code <= '9' as u32
    ||| c == '_'
}

/// True for a text of at least one character, all of them word characters.
pub open spec fn is_word(text: Seq<char>) -> bool {
    text.len() > 0 && forall|i: int| 0 <= i < text.len() ==> is_word_char(#[trigger] text[i])
}

/// Builds a query with `sql_query_builder::Select`: `new`, then `select` with
/// `column`, then `from` with `table`, and gives the query's text as
/// `as_string` writes it. The result is what `select_statement` names. Of a
/// column and a table that are words it is claimed to read `SELECT`, the
/// column, `FROM` and the table with one space between each two: the crate
/// trims the two texts, which leaves a word as it is, and writes them so.
#[verifier::external_body]
fn select_from(column: &str, table: &str) -> (res: String)
    ensures
        res@ == select_statement(column@, table@),
        is_word(column@) && is_word(table@) ==> res@ == "SELECT "@ + column@ + " FROM "@ + table@,
{
    sql_query_builder::Select::new().select(column).from(table).as_string()
}

/// One question to a store: the store's name and the statement to put to it.
#[derive(Debug, Clone, PartialEq, Eq)]
pub struct HealthProbe {
    pub service: String,
    pub statement: String,
}

/// The probe of the store `service` that selects `column` from `table`.
pub fn probe(service: &str, column: &str, table: &str) -> (res: HealthProbe)
    ensures
        res.service@ == service@,
        res.statement@ == select_statement(column@, table@),
        is_word(column@) && is_word(table@) ==> res.statement@ == "SELECT "@ + column@ + " FROM "@
            + table@,
{
    HealthProbe { service: String::from_str(service), statement: select_from(column, table) }
}

/// The probes of a health check: the events, the weather read model and the
/// read model of the monitored zones, in this order.
pub fn health_probes() -> (res: Vec<HealthProbe>)
    ensures
        res.len() == 3,
        res[0].service@ == MODEL@,
        res[0].statement@ == "SELECT event_version FROM events"@,
        res[1].service@ == WEATHER_VIEW@,
        res[1].statement@ == "SELECT version FROM weather_query"@,
        res[2].service@ == MONITORED_ZONES_VIEW@,
        res[2].statement@ == "SELECT version FROM monitored_zones_query"@,
{
    proof {
        reveal_strlit("event_version");
        reveal_strlit("events");
        reveal_strlit("version");
        reveal_strlit("weather_query");
        reveal_strlit("monitored_zones_query");
        reveal_strlit("SELECT ");
        reveal_strlit(" FROM ");
        reveal_strlit("SELECT event_version FROM events");
        reveal_strlit("SELECT version FROM weather_query");
        reveal_strlit("SELECT version FROM monitored_zones_query");
    }
    vec![
        probe(MODEL, "event_version", "events"),
        probe(WEATHER_VIEW, "version", WEATHER_QUERY_VIEW),
        probe(MONITORED_ZONES_VIEW, "version", MONITORED_ZONES_QUERY_VIEW),
    ]
}

/// What a store's answer says of the store: up where the statement went
/// through, else in error.
pub open spec fn service_health(answered: bool) -> HealthStatus {
    if answered {
        HealthStatus::Up
    } else {
        HealthStatus::Error
    }
}

/// The services by their health.
#[derive(Debug, Clone, PartialEq, Eq)]
pub struct HealthReport {
    /// The services that are up, in the order in which they were asked.
    pub up: Vec<String>,
    /// The services in error, in the order in which they were asked.
    pub error: Vec<String>,
}

/// The names among `outcomes` whose answer is `answered`, in order.
pub open spec fn services_with(outcomes: Seq<(String, bool)>, answered: bool) -> Seq<Seq<char>>
    decreases outcomes.len(),
{
    if outcomes.len() == 0 {
        Seq::empty()
    } else {
        let before = services_with(outcomes.drop_last(), answered);
        if outcomes.last().1 == answered {
            before.push(outcomes.last().0@)
        } else {
            before
        }
    }
}

/// The health of the system from the stores' answers, each given as the
/// store's name and whether its statement went through: the system is up
/// where every store is, else down; the report lists the stores by their
/// health.
pub fn check_health(outcomes: &Vec<(String, bool)>) -> (res: (HealthStatus, HealthReport))
    ensures
        res.0 == if forall|i: int| 0 <= i < outcomes.len() ==> (#[trigger] outcomes[i]).1 {
            HealthStatus::Up
        } else {
            HealthStatus::Down
        },
        crate::keyed::texts(res.1.up@) == services_with(outcomes@, true),
        crate::keyed::texts(res.1.error@) == services_with(outcomes@, false),
{
    let mut up: Vec<String> = Vec::new();
    let mut error: Vec<String> = Vec::new();
    let mut i: usize = 0;
    while i < outcomes.len()
        invariant
            i <= outcomes.len(),
            crate::keyed::texts(up@) == services_with(outcomes@.take(i as int), true),
            crate::keyed::texts(error@) == services_with(outcomes@.take(i as int), false),
            error.len() == 0 <==> forall|j: int| 0 <= j < i ==> (#[trigger] outcomes[j]).1,
        decreases outcomes.len() - i,
    {
        proof {
            assert(outcomes@.take(i + 1).drop_last() =~= outcomes@.take(i as int));
        }
        if outcomes[i].1 {
            up.push(outcomes[i].0.clone());
        } else {
            error.push(outcomes[i].0.clone());
        }
        i += 1;
    }
    proof {
        assert(outcomes@.take(outcomes.len() as int) =~= outcomes@);
    }
    let system = if error.len() == 0 {
        HealthStatus::Up
    } else {
        HealthStatus::Down
    };
    (system, HealthReport { up, error })
}

} // verus!
