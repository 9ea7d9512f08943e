//! The device catalog: what the host reports of its audio endpoints, turned
//! into the list of devices that a user can pick from.
//!
//! Asking the host is the caller's part. It hands over the endpoints in the
//! host's order and, for each direction, the identifier of the default
//! endpoint if the host names one.

use vstd::prelude::*;
use crate::naming::selection_view;

verus! {

/// Whether a device captures or plays.
#[derive(Debug, Clone, Copy, PartialEq, Eq, Structural)]
pub enum Direction {
    Input,
    Output,
}

impl Direction {
    /// The word for the direction: `Input` or `Output`.
    pub fn label(self) -> (s: &'static str)
        ensures
            s@ == (match self {
                Direction::Input => "Input"@,
                Direction::Output => "Output"@,
            }),
    {
        match self {
            Direction::Input => "Input",
            Direction::Output => "Output",
        }
    }
}

/// One device of the catalog. A snapshot: the next listing makes new ones.
#[derive(Debug, Clone, PartialEq, Eq)]
pub struct AudioDevice {
    pub id: String,
    pub name: String,
    pub is_default: bool,
    pub direction: Direction,
}

/// One endpoint as the host reports it.
#[derive(Debug, Clone, PartialEq, Eq)]
pub struct HostEndpoint {
    pub id: String,
    pub name: String,
    pub direction: Direction,
    /// Disabled endpoints are not listed.
    pub enabled: bool,
}

/// What the host's audio subsystem reports.
#[derive(Debug, Clone, PartialEq, Eq)]
pub struct HostReport {
    pub endpoints: Vec<HostEndpoint>,
    /// The identifier of the default capture endpoint, if the host names one.
    pub default_input: Option<String>,
    /// The identifier of the default playback endpoint, if the host names one.
    pub default_output: Option<String>,
}

/// The answer to a query of the host's audio subsystem.
#[derive(Debug, Clone, PartialEq, Eq)]
pub enum HostQuery {
    /// The subsystem could not be reached at all.
    Unreachable,
    Report(HostReport),
}

/// Why the devices could not be listed.
#[derive(Debug, Clone, Copy, PartialEq, Eq, Structural)]
pub enum DeviceQueryError {
    /// The host's audio subsystem could not be reached.
    HostUnreachable,
}

/// A device as mathematics.
pub struct DeviceModel {
    pub id: Seq<char>,
    pub name: Seq<char>,
    pub is_default: bool,
    pub direction: Direction,
}

/// An endpoint as mathematics.
pub struct EndpointModel {
    pub id: Seq<char>,
    pub name: Seq<char>,
    pub direction: Direction,
    pub enabled: bool,
}

/// A host report as mathematics.
pub struct ReportModel {
    pub endpoints: Seq<EndpointModel>,
    pub default_input: Option<Seq<char>>,
    pub default_output: Option<Seq<char>>,
}

impl View for AudioDevice {
    type V = DeviceModel;

    open spec fn view(&self) -> DeviceModel {
        DeviceModel {
            id: self.id@,
            name: self.name@,
            is_default: self.is_default,
            direction: self.direction,
        }
    }
}

impl View for HostEndpoint {
    type V = EndpointModel;

    open spec fn view(&self) -> EndpointModel {
        EndpointModel {
            id: self.id@,
            name: self.name@,
            direction: self.direction,
            enabled: self.enabled,
        }
    }
}

impl View for HostReport {
    type V = ReportModel;

    open spec fn view(&self) -> ReportModel {
        ReportModel {
            endpoints: Seq::new(self.endpoints@.len(), |i: int| self.endpoints@[i]@),
            default_input: selection_view(self.default_input),
            default_output: selection_view(self.default_output),
        }
    }
}

/// The devices of a list, as mathematics.
pub open spec fn devices_view(devices: Seq<AudioDevice>) -> Seq<DeviceModel> {
    Seq::new(devices.len(), |i: int| devices[i]@)
}

impl ReportModel {
    /// The identifier that the host names as default for `direction`.
    pub open spec fn default_of(self, direction: Direction) -> Option<Seq<char>> {
        match direction {
            Direction::Input => self.default_input,
            Direction::Output => self.default_output,
        }
    }

    /// Endpoint `k` is listed, has direction `direction`, and has the
    /// identifier that the host names as default for that direction.
    pub open spec fn claims(self, k: int, direction: Direction) -> bool {
        &&& self.endpoints[k].enabled
        &&& self.endpoints[k].direction == direction
        &&& self.default_of(direction) == Some(self.endpoints[k].id)
    }

    /// Some endpoint before `k` claims the default of `direction`.
    pub open spec fn claimed_before(self, k: int, direction: Direction) -> bool {
        exists|j: int| 0 <= j < k && #[trigger] self.claims(j, direction)
    }

    /// Endpoint `k` gets the default mark: it is the first to claim the
    /// default of its direction.
    pub open spec fn is_default(self, k: int) -> bool {
        self.claims(k, self.endpoints[k].direction) && !self.claimed_before(
            k,
            self.endpoints[k].direction,
        )
    }

    /// The device that stands for endpoint `k`.
    pub open spec fn device(self, k: int) -> DeviceModel {
        DeviceModel {
            id: self.endpoints[k].id,
            name: self.endpoints[k].name,
            is_default: self.is_default(k),
            direction: self.endpoints[k].direction,
        }
    }

    /// The devices for the first `n` endpoints: the enabled ones, in the
    /// host's order.
    pub open spec fn catalog_upto(self, n: int) -> Seq<DeviceModel>
        decreases n,
    {
        if n <= 0 {
            Seq::empty()
        } else if self.endpoints[n - 1].enabled {
            self.catalog_upto(n - 1).push(self.device(n - 1))
        } else {
            self.catalog_upto(n - 1)
        }
    }

    /// The catalog of the whole report.
    pub open spec fn catalog(self) -> Seq<DeviceModel> {
        self.catalog_upto(self.endpoints.len() as int)
    }

    /// The endpoint that entry `i` of `catalog_upto(n)` stands for.
    pub open spec fn origin(self, n: int, i: int) -> int
        decreases n,
    {
        if n <= 0 {
            -1
        } else if self.endpoints[n - 1].enabled && i == self.catalog_upto(n - 1).len() {
            n - 1
        } else {
            self.origin(n - 1, i)
        }
    }
}

fn names_default(default_id: &Option<String>, id: &String) -> (r: bool)
    ensures
        r == (selection_view(*default_id) == Some(id@)),
{
    match default_id {
        Some(d) => *d == *id,
        None => false,
    }
}

/// The catalog for what the host reported.
///
/// An unreachable host is the one error. A reachable host gives a list,
/// empty if it has no enabled endpoint: every enabled endpoint once, in the
/// host's order, and marked as default where it is the first of its
/// direction with the identifier that the host names as default. So each
/// direction has at most one default device, and none where the host names
/// none.
pub fn list_devices(query: &HostQuery) -> (r: Result<Vec<AudioDevice>, DeviceQueryError>)
    ensures
        r is Err <==> query is Unreachable,
        r is Err ==> r == Err::<Vec<AudioDevice>, DeviceQueryError>(DeviceQueryError::HostUnreachable),
        query matches HostQuery::Report(report) ==> (r matches Ok(devices) && devices_view(devices@)
            == report@.catalog()),
{
    let report = match query {
        HostQuery::Unreachable => {
            return Err(DeviceQueryError::HostUnreachable);
        },
        HostQuery::Report(report) => report,
    };
    let ghost model = report@;
    let mut devices: Vec<AudioDevice> = Vec::new();
    let mut input_claimed = false;
    let mut output_claimed = false;
    let mut k: usize = 0;
    assert(devices_view(devices@) =~= model.catalog_upto(0));
    while k < report.endpoints.len()
        invariant
            k <= report.endpoints@.len(),
            model == report@,
            devices_view(devices@) == model.catalog_upto(k as int),
            input_claimed == model.claimed_before(k as int, Direction::Input),
            output_claimed == model.claimed_before(k as int, Direction::Output),
        decreases report.endpoints@.len() - k,
    {
        let endpoint = &report.endpoints[k];
        assert(model.endpoints[k as int] == endpoint@);
        let claims_input = endpoint.enabled && endpoint.direction == Direction::Input && names_default(
            &report.default_input,
            &endpoint.id,
        );
        let claims_output = endpoint.enabled && endpoint.direction == Direction::Output
            && names_default(&report.default_output, &endpoint.id);
        assert(claims_input == model.claims(k as int, Direction::Input));
        assert(claims_output == model.claims(k as int, Direction::Output));
        if endpoint.enabled {
            let is_default = (claims_input && !input_claimed) || (claims_output && !output_claimed);
            assert(is_default == model.is_default(k as int));
            let ghost before = devices@;
            devices.push(
                AudioDevice {
                    id: endpoint.id.clone(),
                    name: endpoint.name.clone(),
                    is_default,
                    direction: endpoint.direction,
                },
            );
            assert(devices_view(devices@) =~= devices_view(before).push(model.device(k as int)));
        }
        proof {
            lemma_claimed_before_step(model, k as int, Direction::Input);
            lemma_claimed_before_step(model, k as int, Direction::Output);
        }
        input_claimed = input_claimed || claims_input;
        output_claimed = output_claimed || claims_output;
        k = k + 1;
    }
    Ok(devices)
}

/// A default is claimed before `k + 1` if it was claimed before `k` or
/// endpoint `k` claims it.
pub proof fn lemma_claimed_before_step(report: ReportModel, k: int, direction: Direction)
    requires
        0 <= k,
    ensures
        report.claimed_before(k + 1, direction) == (report.claimed_before(k, direction)
            || report.claims(k, direction)),
{
    if report.claimed_before(k + 1, direction) {
        let j = choose|j: int| 0 <= j < k + 1 && #[trigger] report.claims(j, direction);
        if j < k {
            assert(report.claimed_before(k, direction));
        }
    }
    if report.claimed_before(k, direction) {
        let j = choose|j: int| 0 <= j < k && #[trigger] report.claims(j, direction);
        assert(0 <= j < k + 1 && report.claims(j, direction));
    }
    if report.claims(k, direction) {
        assert(0 <= k < k + 1 && report.claims(k, direction));
    }
}

/// Every entry of the catalog stands for an enabled endpoint, and the
/// entries keep the order of their endpoints.
pub proof fn lemma_catalog_entries(report: ReportModel, n: int, i: int)
    requires
        0 <= n <= report.endpoints.len(),
        0 <= i < report.catalog_upto(n).len(),
    ensures
        0 <= report.origin(n, i) < n,
        report.endpoints[report.origin(n, i)].enabled,
        report.catalog_upto(n)[i] == report.device(report.origin(n, i)),
        forall|j: int|
            i < j < report.catalog_upto(n).len() ==> report.origin(n, i) < #[trigger] report.origin(
                n,
                j,
            ),
    decreases n,
{
    if n > 0 {
        let prev = report.catalog_upto(n - 1);
        if i < prev.len() {
            lemma_catalog_entries(report, n - 1, i);
            assert forall|j: int| i < j < report.catalog_upto(n).len() implies report.origin(n, i)
                < #[trigger] report.origin(n, j) by {
                if j < prev.len() {
                    lemma_catalog_entries(report, n - 1, j);
                }
            }
        }
    }
}

/// No direction has two default devices.
pub proof fn lemma_at_most_one_default(report: ReportModel, i: int, j: int)
    requires
        0 <= i < report.catalog().len(),
        0 <= j < report.catalog().len(),
        report.catalog()[i].is_default,
        report.catalog()[j].is_default,
        report.catalog()[i].direction == report.catalog()[j].direction,
    ensures
        i == j,
{
    let n = report.endpoints.len() as int;
    lemma_catalog_entries(report, n, i);
    lemma_catalog_entries(report, n, j);
    let a = report.origin(n, i);
    let b = report.origin(n, j);
    let direction = report.catalog()[i].direction;
    if i < j {
        assert(a < b);
        assert(0 <= a < b && report.claims(a, direction));
        assert(report.claimed_before(b, direction));
    } else if j < i {
        assert(b < a);
        assert(0 <= b < a && report.claims(b, direction));
        assert(report.claimed_before(a, direction));
    }
}

/// A default device has the identifier that the host names as default for
/// its direction: where the host names none, no device of that direction is
/// marked.
pub proof fn lemma_default_is_reported(report: ReportModel, i: int)
    requires
        0 <= i < report.catalog().len(),
        report.catalog()[i].is_default,
    ensures
        report.default_of(report.catalog()[i].direction) == Some(report.catalog()[i].id),
{
    lemma_catalog_entries(report, report.endpoints.len() as int, i);
}

/// Where an enabled endpoint of a direction has the identifier that the
/// host names as default, the catalog marks a device of that direction.
pub proof fn lemma_reported_default_is_marked(report: ReportModel, k: int, direction: Direction)
    requires
        0 <= k < report.endpoints.len(),
        report.claims(k, direction),
    ensures
        exists|i: int|
            0 <= i < report.catalog().len() && (#[trigger] report.catalog()[i]).is_default
                && report.catalog()[i].direction == direction && Some(report.catalog()[i].id)
                == report.default_of(direction),
{
    let first = lemma_first_claim(report, k, direction);
    let i = lemma_entry_of(report, report.endpoints.len() as int, first);
    assert(report.catalog()[i].is_default);
}

/// The first endpoint that claims a default which endpoint `k` claims.
proof fn lemma_first_claim(report: ReportModel, k: int, direction: Direction) -> (first: int)
    requires
        0 <= k < report.endpoints.len(),
        report.claims(k, direction),
    ensures
        0 <= first <= k,
        report.claims(first, direction),
        !report.claimed_before(first, direction),
    decreases k,
{
    if report.claimed_before(k, direction) {
        let j = choose|j: int| 0 <= j < k && #[trigger] report.claims(j, direction);
        lemma_first_claim(report, j, direction)
    } else {
        k
    }
}

/// The catalog entry of an enabled endpoint.
proof fn lemma_entry_of(report: ReportModel, n: int, k: int) -> (i: int)
    requires
        0 <= k < n <= report.endpoints.len(),
        report.endpoints[k].enabled,
    ensures
        0 <= i < report.catalog_upto(n).len(),
        report.catalog_upto(n)[i] == report.device(k),
    decreases n,
{
    if k == n - 1 {
        report.catalog_upto(n - 1).len() as int
    } else {
        lemma_entry_of(report, n - 1, k)
    }
}

} // verus!
