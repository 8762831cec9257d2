//! # Circulatory system
//!
//! Data transport pipeline modeled on the biological circulatory system:
//! the heart collects blood cells (data), enriches them with routing
//! metadata, and distributes them to destinations; vessels split the routed
//! traffic by priority; white cells detect threats in transit; platelets
//! repair breaches; blood pressure measures spare capacity.
//!
//! Ratios are exact quotients of counts ([`ratio::Ratio`]); payloads are
//! carried as their serialized JSON text.

use vstd::prelude::*;

pub mod claude_code;
pub mod clock;
pub mod ratio;
pub mod text;

use crate::clock::{is_rfc3339_utc, timestamp_now};
use crate::ratio::Ratio;
use crate::text::{contains_text, has_infix, lowercase, lowercase_of};

verus! {

// ============================================================================
// Errors
// ============================================================================

/// Errors during circulatory operations.
#[derive(Debug, Clone, Copy, PartialEq, Eq, Structural)]
pub enum CirculatoryError {
    /// No data to pump.
    EmptyBloodstream,
    /// Pressure too low (system overloaded); carries the pressure ratio.
    LowPressure(Ratio),
    /// Pressure too high; carries the pressure ratio.
    HighPressure(Ratio),
}

impl CirculatoryError {
    /// The human-readable text of the error.
    pub open spec fn message_text(self) -> Seq<char> {
        match self {
            CirculatoryError::EmptyBloodstream => "empty bloodstream — no data to pump"@,
            CirculatoryError::LowPressure(r) => "low pressure: "@ + r.fixed2(),
            CirculatoryError::HighPressure(r) => "high pressure: "@ + r.fixed2(),
        }
    }

    /// The human-readable text of the error (its display form).
    pub fn message(&self) -> (s: String)
        ensures
            s@ == self.message_text(),
    {
        match self {
            CirculatoryError::EmptyBloodstream => String::from_str(
                "empty bloodstream — no data to pump",
            ),
            CirculatoryError::LowPressure(r) => {
                let mut s = String::from_str("low pressure: ");
                let num = r.fixed2_text();
                s.append(num.as_str());
                s
            },
            CirculatoryError::HighPressure(r) => {
                let mut s = String::from_str("high pressure: ");
                let num = r.fixed2_text();
                s.append(num.as_str());
                s
            },
        }
    }
}

// ============================================================================
// Cell kinds and destinations
// ============================================================================

/// Classification of blood cells by their transport role.
#[derive(Debug, Clone, Copy, PartialEq, Eq, Hash, Structural)]
pub enum CellKind {
    /// Data carrier (red blood cell analog).
    Data,
    /// Configuration/property carrier.
    Config,
    /// Signal/event carrier.
    Signal,
}

/// Where data is routed after enrichment.
#[derive(Debug, Clone, Copy, PartialEq, Eq, Hash, Structural)]
pub enum Destination {
    /// Digestive system, for processing.
    Digestive,
    /// Nervous system, for decision-making.
    Nervous,
    /// Storage, for persistence.
    Storage,
    /// Immune system, for threat analysis.
    Immune,
}

/// The destination of each kind of cell.
pub open spec fn destination_for(kind: CellKind) -> Destination {
    match kind {
        CellKind::Data => Destination::Digestive,
        CellKind::Config => Destination::Nervous,
        CellKind::Signal => Destination::Immune,
    }
}

/// Route a cell kind to its destination: data to digestion, configuration
/// to the nervous system, signals to the immune system.
pub fn route_by_kind(kind: CellKind) -> (d: Destination)
    ensures
        d == destination_for(kind),
{
    match kind {
        CellKind::Data => Destination::Digestive,
        CellKind::Config => Destination::Nervous,
        CellKind::Signal => Destination::Immune,
    }
}

/// Routing is one-to-one on kinds: different kinds of cell go to different
/// destinations, and nothing is routed to storage.
pub proof fn lemma_routing_distinct(a: CellKind, b: CellKind)
    ensures
        a != b ==> destination_for(a) != destination_for(b),
        destination_for(a) != Destination::Storage,
{
}

// ============================================================================
// BloodCell
// ============================================================================

/// A blood cell carrying data through the circulatory system.
#[derive(Debug)]
pub struct BloodCell {
    /// Source system that produced this data.
    pub source: String,
    /// Classification of the carried data.
    pub kind: CellKind,
    /// The data payload, as its serialized JSON text.
    pub payload: String,
    /// Whether this cell has been processed.
    pub processed: bool,
}

impl Clone for BloodCell {
    fn clone(&self) -> (c: Self)
        ensures
            c == *self,
    {
        BloodCell {
            source: self.source.clone(),
            kind: self.kind,
            payload: self.payload.clone(),
            processed: self.processed,
        }
    }
}

impl BloodCell {
    /// A fresh, unprocessed cell of the given kind.
    pub open spec fn fresh(self, source: Seq<char>, kind: CellKind, payload: String) -> bool {
        &&& self.source@ == source
        &&& self.kind == kind
        &&& self.payload == payload
        &&& !self.processed
    }

    /// Create a new data-carrying blood cell.
    pub fn data(source: &str, payload: String) -> (c: Self)
        ensures
            c.fresh(source@, CellKind::Data, payload),
    {
        BloodCell { source: String::from_str(source), kind: CellKind::Data, payload, processed: false }
    }

    /// Create a new config-carrying blood cell.
    pub fn config(source: &str, payload: String) -> (c: Self)
        ensures
            c.fresh(source@, CellKind::Config, payload),
    {
        BloodCell {
            source: String::from_str(source),
            kind: CellKind::Config,
            payload,
            processed: false,
        }
    }

    /// Create a new signal-carrying blood cell.
    pub fn signal(source: &str, payload: String) -> (c: Self)
        ensures
            c.fresh(source@, CellKind::Signal, payload),
    {
        BloodCell {
            source: String::from_str(source),
            kind: CellKind::Signal,
            payload,
            processed: false,
        }
    }
}

// ============================================================================
// Enrichment and routing
// ============================================================================

/// A blood cell enriched with routing metadata (oxygenated).
#[derive(Debug, Clone)]
pub struct Enriched {
    /// The blood cell as it was collected.
    pub cell: BloodCell,
    /// Enrichment timestamp.
    pub enriched_at: String,
    /// Routing priority (1 = highest, 3 = normal).
    pub priority: u8,
}

/// The result of a routing decision: which destination for which cell.
#[derive(Debug, Clone)]
pub struct RouteDecision {
    /// The enriched cell being routed.
    pub cell: Enriched,
    /// The destination organ system.
    pub destination: Destination,
}

/// Priority of a cell from the lower-cased name of its source: names with
/// "urgent" or "critical" get 1, names with "priority" get 2, others 3.
pub open spec fn priority_of_lowered(lowered: Seq<char>) -> u8 {
    if has_infix(lowered, "urgent"@) || has_infix(lowered, "critical"@) {
        1
    } else if has_infix(lowered, "priority"@) {
        2
    } else {
        3
    }
}

/// Priority of a cell from the name of its source, in any case.
pub open spec fn source_priority(source: Seq<char>) -> u8 {
    priority_of_lowered(lowercase_of(source))
}

/// Priority for an already lower-cased source name.
pub fn priority_for_lowered(lowered: &str) -> (p: u8)
    ensures
        p == priority_of_lowered(lowered@),
        has_infix(lowered@, "urgent"@) || has_infix(lowered@, "critical"@) ==> p == 1,
        !has_infix(lowered@, "urgent"@) && !has_infix(lowered@, "critical"@) && has_infix(
            lowered@,
            "priority"@,
        ) ==> p == 2,
        !has_infix(lowered@, "urgent"@) && !has_infix(lowered@, "critical"@) && !has_infix(
            lowered@,
            "priority"@,
        ) ==> p == 3,
{
    if contains_text(lowered, "urgent") || contains_text(lowered, "critical") {
        1
    } else if contains_text(lowered, "priority") {
        2
    } else {
        3
    }
}

/// A source whose lower-cased name mentions "urgent" or "critical" gets
/// priority 1, whatever else it mentions; otherwise one that mentions
/// "priority" gets 2; any other gets 3.
pub proof fn lemma_priority_rule(lowered: Seq<char>)
    ensures
        has_infix(lowered, "urgent"@) ==> priority_of_lowered(lowered) == 1,
        has_infix(lowered, "critical"@) ==> priority_of_lowered(lowered) == 1,
        !has_infix(lowered, "urgent"@) && !has_infix(lowered, "critical"@) && has_infix(
            lowered,
            "priority"@,
        ) ==> priority_of_lowered(lowered) == 2,
        !has_infix(lowered, "urgent"@) && !has_infix(lowered, "critical"@) && !has_infix(
            lowered,
            "priority"@,
        ) ==> priority_of_lowered(lowered) == 3,
{
}

fn calculate_priority(cell: &BloodCell) -> (p: u8)
    ensures
        p == source_priority(cell.source@),
{
    let lowered = lowercase(cell.source.as_str());
    priority_for_lowered(lowered.as_str())
}

// ============================================================================
// BloodPressure
// ============================================================================

/// System pressure: ratio of available capacity to total.
#[derive(Debug, Clone, Copy)]
pub struct BloodPressure {
    /// Total system capacity.
    pub total: usize,
    /// Currently available capacity.
    pub available: usize,
}

/// The reading `BloodPressure::new` makes: available clamped to total.
pub open spec fn pressure_reading(total: usize, available: usize) -> BloodPressure {
    BloodPressure { total, available: if available <= total { available } else { total } }
}

/// The pressure of a system of the given capacity carrying `load` cells.
pub open spec fn load_pressure(capacity: usize, load: nat) -> BloodPressure {
    BloodPressure {
        total: capacity,
        available: if load >= capacity {
            0
        } else {
            (capacity - load) as usize
        },
    }
}

impl BloodPressure {
    /// The exact ratio available / total (zero when total is zero).
    pub open spec fn ratio_of(self) -> Ratio {
        Ratio { numerator: self.available as u64, denominator: self.total as u64 }
    }

    /// Pressure is healthy when the ratio lies in [0.7, 1.0].
    pub open spec fn healthy(self) -> bool {
        &&& self.total > 0
        &&& 10 * self.available >= 7 * self.total
        &&& self.available <= self.total
    }

    /// Create a new pressure reading; available is clamped to total.
    pub fn new(total: usize, available: usize) -> (p: Self)
        ensures
            p == pressure_reading(total, available),
    {
        BloodPressure { total, available: if available <= total { available } else { total } }
    }

    /// Pressure ratio available / total (zero when total is zero).
    pub fn ratio(&self) -> (r: Ratio)
        ensures
            r == self.ratio_of(),
    {
        Ratio::new(self.available as u64, self.total as u64)
    }

    /// Whether pressure is in the healthy range 0.7 to 1.0.
    pub fn is_healthy(&self) -> (b: bool)
        ensures
            b == self.healthy(),
    {
        let r = self.ratio();
        !r.is_below(7, 10) && !r.is_above(1, 1)
    }
}

// ============================================================================
// Pulse, Platelet
// ============================================================================

/// Result of a single heartbeat cycle.
#[derive(Debug, Clone)]
pub struct Pulse {
    /// Number of cells collected.
    pub collected: usize,
    /// Number of cells enriched.
    pub enriched: usize,
    /// Number of cells distributed.
    pub distributed: usize,
    /// Blood pressure after the beat.
    pub pressure: BloodPressure,
    /// Timestamp of this heartbeat.
    pub timestamp: String,
}

/// A repair agent that seals breaches in the data pipeline.
#[derive(Debug, Clone)]
pub struct Platelet {
    /// What was repaired.
    pub target: String,
    /// How it was repaired.
    pub method: RepairMethod,
    /// Whether repair was successful.
    pub sealed: bool,
}

/// Methods a platelet can use to repair damage.
#[derive(Debug, Clone, Copy, PartialEq, Eq, Structural)]
pub enum RepairMethod {
    /// Create a stub replacement.
    Stub,
    /// Reconnect a broken link.
    Reconnect,
    /// Patch missing data with defaults.
    Patch,
}

// ============================================================================
// Heart
// ============================================================================

/// The heart: collects, enriches, and distributes data through the system.
pub struct Heart {
    /// Total system capacity for pressure tracking.
    pub capacity: usize,
    /// Cells currently in the bloodstream.
    bloodstream: Vec<BloodCell>,
}

impl Default for Heart {
    fn default() -> (h: Self)
        ensures
            h.cap() == 5000,
            h.cells() == Seq::<BloodCell>::empty(),
    {
        Heart { capacity: 5000, bloodstream: Vec::new() }
    }
}

impl Heart {
    /// The cells in the bloodstream, in the order they were collected.
    pub closed spec fn cells(&self) -> Seq<BloodCell> {
        self.bloodstream@
    }

    /// The capacity of the heart: the value of its `capacity` field. The
    /// private bloodstream makes `Heart` opaque outside this module, so the
    /// field cannot be read in a public clause, and this function stands for
    /// it there.
    pub closed spec fn cap(&self) -> usize {
        self.capacity
    }

    /// Set the capacity of the heart; the bloodstream is unchanged.
    pub fn set_capacity(&mut self, capacity: usize)
        ensures
            final(self).cap() == capacity,
            final(self).cells() == old(self).cells(),
    {
        self.capacity = capacity;
    }

    /// Add cells to the bloodstream for pumping.
    pub fn collect(&mut self, cells: Vec<BloodCell>)
        ensures
            final(self).cells() == old(self).cells() + cells@,
            final(self).cap() == old(self).cap(),
    {
        let mut cells = cells;
        self.bloodstream.append(&mut cells);
    }

    /// Enrich all cells with metadata (oxygenation): each cell is copied,
    /// stamped with the current time, and given the priority of its source.
    pub fn oxygenate(&self, cells: &[BloodCell]) -> (r: Vec<Enriched>)
        ensures
            r@.len() == cells@.len(),
            forall|i: int|
                0 <= i < cells@.len() ==> {
                    &&& (#[trigger] r@[i]).cell == cells@[i]
                    &&& r@[i].priority == source_priority(cells@[i].source@)
                    &&& is_rfc3339_utc(r@[i].enriched_at@)
                },
    {
        let mut out: Vec<Enriched> = Vec::new();
        let n = cells.len();
        for i in 0..n
            invariant
                n == cells@.len(),
                out@.len() == i,
                forall|j: int|
                    0 <= j < i ==> {
                        &&& (#[trigger] out@[j]).cell == cells@[j]
                        &&& out@[j].priority == source_priority(cells@[j].source@)
                        &&& is_rfc3339_utc(out@[j].enriched_at@)
                    },
        {
            let priority = calculate_priority(&cells[i]);
            let e = Enriched { cell: cells[i].clone(), enriched_at: timestamp_now(), priority };
            out.push(e);
        }
        out
    }

    /// Route enriched cells to the destination of their kind.
    pub fn distribute(&self, enriched: Vec<Enriched>) -> (r: Vec<RouteDecision>)
        ensures
            r@.len() == enriched@.len(),
            forall|i: int|
                0 <= i < enriched@.len() ==> {
                    &&& (#[trigger] r@[i]).cell == enriched@[i]
                    &&& r@[i].destination == destination_for(enriched@[i].cell.kind)
                },
    {
        let ghost input = enriched@;
        let mut out: Vec<RouteDecision> = Vec::new();
        for cell in it: enriched.into_iter()
            invariant
                it.seq() == input,
                out@.len() == it.index(),
                forall|j: int|
                    0 <= j < it.index() ==> {
                        &&& (#[trigger] out@[j]).cell == input[j]
                        &&& out@[j].destination == destination_for(input[j].cell.kind)
                    },
        {
            let destination = route_by_kind(cell.cell.kind);
            out.push(RouteDecision { cell, destination });
        }
        out
    }

    /// Run a full pump cycle: drain the bloodstream, oxygenate, distribute,
    /// and measure the resulting pressure.
    pub fn pump(&mut self) -> (p: Pulse)
        ensures
            final(self).cells() == Seq::<BloodCell>::empty(),
            final(self).cap() == old(self).cap(),
            p.collected == old(self).cells().len(),
            p.enriched == old(self).cells().len(),
            p.distributed == old(self).cells().len(),
            p.pressure == load_pressure(old(self).cap(), old(self).cells().len()),
            is_rfc3339_utc(p.timestamp@),
    {
        let mut cells: Vec<BloodCell> = Vec::new();
        std::mem::swap(&mut cells, &mut self.bloodstream);
        let collected = cells.len();

        let enriched = self.oxygenate(cells.as_slice());
        let enriched_count = enriched.len();

        let routed = self.distribute(enriched);
        let distributed = routed.len();

        let pressure = BloodPressure::new(self.capacity, self.capacity.saturating_sub(distributed));

        Pulse {
            collected,
            enriched: enriched_count,
            distributed,
            pressure,
            timestamp: timestamp_now(),
        }
    }

    /// Current blood pressure based on bloodstream load.
    pub fn pressure(&self) -> (p: BloodPressure)
        ensures
            p == load_pressure(self.cap(), self.cells().len()),
    {
        BloodPressure::new(self.capacity, self.capacity.saturating_sub(self.bloodstream.len()))
    }

    /// Number of cells currently in the bloodstream.
    pub fn bloodstream_len(&self) -> (n: usize)
        ensures
            n == self.cells().len(),
    {
        self.bloodstream.len()
    }
}

/// After a pump the bloodstream is empty, so the heart is back at full
/// pressure, which is healthy whenever it has any capacity.
pub proof fn lemma_pump_restores_pressure(capacity: usize)
    ensures
        load_pressure(capacity, 0) == (BloodPressure { total: capacity, available: capacity }),
        capacity > 0 ==> load_pressure(capacity, 0).healthy(),
{
}

/// A heart of the default capacity (5000) stays healthy under a load of up
/// to 1500 cells, and no more: healthy pressure needs 70% spare capacity.
pub proof fn lemma_default_headroom(load: nat)
    ensures
        load_pressure(5000, load).healthy() <==> load <= 1500,
{
}

// ============================================================================
// Vessels
// ============================================================================

/// Vessels that route blood cells between organs.
pub struct Vessels;

/// Decisions the arteries carry: priority 1 (high) and 2 (normal).
pub open spec fn carried_by_arteries() -> spec_fn(RouteDecision) -> bool {
    |d: RouteDecision| d.cell.priority <= 2
}

/// Decisions the veins carry: priority 3 and above.
pub open spec fn carried_by_veins() -> spec_fn(RouteDecision) -> bool {
    |d: RouteDecision| d.cell.priority >= 3
}

/// The arterial stream of a sequence of decisions, in order.
pub open spec fn arterial_stream(ds: Seq<RouteDecision>) -> Seq<RouteDecision> {
    ds.filter(carried_by_arteries())
}

/// The venous stream of a sequence of decisions, in order.
pub open spec fn venous_stream(ds: Seq<RouteDecision>) -> Seq<RouteDecision> {
    ds.filter(carried_by_veins())
}

/// The decisions that a sequence of references points at.
pub open spec fn referenced<'a>(rs: Seq<&'a RouteDecision>) -> Seq<RouteDecision> {
    rs.map_values(|r: &'a RouteDecision| *r)
}

/// Several streams joined one after another.
pub open spec fn joined<'a>(streams: Seq<Vec<&'a RouteDecision>>) -> Seq<&'a RouteDecision> {
    streams.map_values(|s: Vec<&'a RouteDecision>| s@).flatten()
}

/// The arterial (or else the venous) stream of `decisions`.
fn select<'a>(decisions: &'a [RouteDecision], arteries: bool) -> (r: Vec<&'a RouteDecision>)
    ensures
        arteries ==> referenced(r@) == arterial_stream(decisions@),
        !arteries ==> referenced(r@) == venous_stream(decisions@),
{
    let ghost keep = if arteries {
        carried_by_arteries()
    } else {
        carried_by_veins()
    };
    let mut out: Vec<&'a RouteDecision> = Vec::new();
    let n = decisions.len();
    for i in 0..n
        invariant
            n == decisions@.len(),
            arteries ==> keep == carried_by_arteries(),
            !arteries ==> keep == carried_by_veins(),
            referenced(out@) == decisions@.take(i as int).filter(keep),
    {
        let d = &decisions[i];
        proof {
            assert(decisions@.take(i + 1) == decisions@.take(i as int).push(decisions@[i as int]));
            decisions@.take(i as int).lemma_filter_push(decisions@[i as int], keep);
        }
        let taken = if arteries {
            d.cell.priority <= 2
        } else {
            d.cell.priority >= 3
        };
        if taken {
            let ghost before = out@;
            out.push(d);
            assert(referenced(out@) == referenced(before).push(*d));
        }
    }
    assert(decisions@.take(n as int) == decisions@);
    out
}

/// Priorities are 1, 2 or 3, and a cell of an oxygenated decision travels
/// through the arteries exactly when the lower-cased name of its source
/// mentions "urgent", "critical" or "priority".
pub proof fn lemma_arterial_sources(d: RouteDecision)
    requires
        d.cell.priority == source_priority(d.cell.cell.source@),
    ensures
        1 <= d.cell.priority <= 3,
        carried_by_arteries()(d) <==> ({
            let lowered = lowercase_of(d.cell.cell.source@);
            has_infix(lowered, "urgent"@) || has_infix(lowered, "critical"@) || has_infix(
                lowered,
                "priority"@,
            )
        }),
        carried_by_veins()(d) <==> !carried_by_arteries()(d),
{
}

/// Every routed decision travels exactly one way. The arterial and the
/// venous streams of a sequence of decisions hold, together, exactly its
/// decisions (as a multiset), so their lengths add up to its length.
pub proof fn lemma_streams_partition(ds: Seq<RouteDecision>)
    ensures
        arterial_stream(ds).to_multiset().add(venous_stream(ds).to_multiset()) =~= ds.to_multiset(),
        arterial_stream(ds).len() + venous_stream(ds).len() == ds.len(),
    decreases ds.len(),
{
    broadcast use vstd::seq_lib::group_to_multiset_ensures;
    broadcast use vstd::multiset::group_multiset_axioms;

    if ds.len() == 0 {
        reveal_with_fuel(Seq::filter, 1);
        assert(arterial_stream(ds) =~= Seq::<RouteDecision>::empty());
        assert(venous_stream(ds) =~= Seq::<RouteDecision>::empty());
    } else {
        let rest = ds.drop_last();
        let x = ds.last();
        lemma_streams_partition(rest);
        assert(ds =~= rest.push(x));
        rest.lemma_filter_push(x, carried_by_arteries());
        rest.lemma_filter_push(x, carried_by_veins());
    }
}

/// Splitting decisions into the arterial and the venous streams and merging
/// the two streams loses and invents nothing: the merged stream holds
/// exactly the decisions it started from.
pub proof fn lemma_split_then_merge<'a>(
    ds: Seq<RouteDecision>,
    arteries: Vec<&'a RouteDecision>,
    veins: Vec<&'a RouteDecision>,
    merged: Seq<&'a RouteDecision>,
)
    requires
        referenced(arteries@) == arterial_stream(ds),
        referenced(veins@) == venous_stream(ds),
        merged == joined(seq![arteries, veins]),
    ensures
        referenced(merged).to_multiset() =~= ds.to_multiset(),
        merged.len() == ds.len(),
{
    broadcast use vstd::seq_lib::group_to_multiset_ensures;

    lemma_streams_partition(ds);
    let views = seq![arteries, veins].map_values(|s: Vec<&'a RouteDecision>| s@);
    assert(views =~= seq![arteries@, veins@]);
    views.lemma_flatten_and_flatten_alt_are_equivalent();
    assert(views.drop_last() =~= seq![arteries@]);
    seq![arteries@].lemma_flatten_and_flatten_alt_are_equivalent();
    let none = Seq::<Seq<&'a RouteDecision>>::empty();
    assert(seq![arteries@].drop_last() =~= none);
    assert(none.flatten_alt() =~= Seq::<&'a RouteDecision>::empty());
    assert(seq![arteries@].flatten_alt() =~= arteries@);
    assert(views.flatten_alt() =~= arteries@ + veins@);
    assert(merged =~= arteries@ + veins@);
    assert(referenced(merged) =~= referenced(arteries@) + referenced(veins@));
    vstd::seq_lib::lemma_multiset_commutative(referenced(arteries@), referenced(veins@));
}

/// Merging one more stream appends it: the merge of `streams` followed by
/// `s` is the merge of `streams`, then all of `s`, in order.
pub proof fn lemma_merge_appends<'a>(streams: Seq<Vec<&'a RouteDecision>>, s: Vec<&'a RouteDecision>)
    ensures
        joined(streams.push(s)) == joined(streams) + s@,
{
    let views = streams.push(s).map_values(|v: Vec<&'a RouteDecision>| v@);
    let prev = streams.map_values(|v: Vec<&'a RouteDecision>| v@);
    assert(views.drop_last() =~= prev);
    assert(views.last() == s@);
    views.lemma_flatten_and_flatten_alt_are_equivalent();
    prev.lemma_flatten_and_flatten_alt_are_equivalent();
}

/// The merge of any number of streams is as long as all of them together.
pub proof fn lemma_merge_length<'a>(streams: Seq<Vec<&'a RouteDecision>>)
    ensures
        joined(streams).len() == streams.fold_left(
            0int,
            |n: int, s: Vec<&'a RouteDecision>| n + s@.len(),
        ),
    decreases streams.len(),
{
    if streams.len() == 0 {
        let views = streams.map_values(|v: Vec<&'a RouteDecision>| v@);
        assert(views =~= Seq::<Seq<&'a RouteDecision>>::empty());
        views.lemma_flatten_and_flatten_alt_are_equivalent();
    } else {
        let rest = streams.drop_last();
        lemma_merge_length(rest);
        lemma_merge_appends(rest, streams.last());
        assert(rest.push(streams.last()) =~= streams);
    }
}

impl Vessels {
    /// Route through the main artery: the decisions of priority 1 and 2,
    /// in order.
    pub fn arterial_route<'a>(&self, decisions: &'a [RouteDecision]) -> (r: Vec<&'a RouteDecision>)
        ensures
            referenced(r@) == arterial_stream(decisions@),
    {
        select(decisions, true)
    }

    /// Route through the veins: the decisions of priority 3 and above, in
    /// order.
    pub fn venous_route<'a>(&self, decisions: &'a [RouteDecision]) -> (r: Vec<&'a RouteDecision>)
        ensures
            referenced(r@) == venous_stream(decisions@),
    {
        select(decisions, false)
    }

    /// Merge several routing streams into one, keeping each stream's order
    /// and the order of the streams.
    pub fn merge<'a>(&self, streams: Vec<Vec<&'a RouteDecision>>) -> (r: Vec<&'a RouteDecision>)
        ensures
            r@ == joined(streams@),
            r@ == streams@.map_values(|s: Vec<&'a RouteDecision>| s@).flatten(),
            r@.len() == streams@.fold_left(0int, |n: int, s: Vec<&'a RouteDecision>| n + s@.len()),
    {
        proof {
            lemma_merge_length(streams@);
        }
        let ghost input = streams@;
        let mut out: Vec<&'a RouteDecision> = Vec::new();
        for stream in it: streams.into_iter()
            invariant
                it.seq() == input,
                out@ == joined(input.take(it.index() as int)),
        {
            let ghost k = it.index() as int;
            let ghost before = out@;
            let mut stream = stream;
            let ghost added = stream@;
            out.append(&mut stream);
            proof {
                let views = input.take(k + 1).map_values(|s: Vec<&'a RouteDecision>| s@);
                let prev = input.take(k).map_values(|s: Vec<&'a RouteDecision>| s@);
                assert(views.drop_last() == prev);
                assert(views.last() == added);
                views.lemma_flatten_and_flatten_alt_are_equivalent();
                prev.lemma_flatten_and_flatten_alt_are_equivalent();
            }
        }
        assert(input.take(input.len() as int) == input);
        out
    }
}

// ============================================================================
// WhiteCells
// ============================================================================

/// White blood cells: threat detection in transit.
pub struct WhiteCells;

/// A payload is a threat when its text mentions "error", "anomaly" or
/// "threat".
pub open spec fn carries_threat(payload: Seq<char>) -> bool {
    has_infix(payload, "error"@) || has_infix(payload, "anomaly"@) || has_infix(payload, "threat"@)
}

/// A payload is a threat exactly when its text contains "error", "anomaly"
/// or "threat" anywhere; text around the word does not matter, so a threat
/// stays a threat inside any longer text.
pub proof fn lemma_threat_words(payload: Seq<char>, before: Seq<char>, after: Seq<char>)
    ensures
        carries_threat(payload) <==> (has_infix(payload, "error"@) || has_infix(payload, "anomaly"@)
            || has_infix(payload, "threat"@)),
        carries_threat(payload) ==> carries_threat(before + payload + after),
{
    let whole = before + payload + after;
    assert forall|w: Seq<char>| has_infix(payload, w) implies has_infix(whole, w) by {
        let i = choose|i: int|
            0 <= i && i + w.len() <= payload.len() && #[trigger] payload.subrange(i, i + w.len())
                == w;
        let j = before.len() + i;
        assert(whole.subrange(j, j + w.len()) =~= payload.subrange(i, i + w.len()));
    }
}

impl WhiteCells {
    /// Detect whether a blood cell carries a potential threat.
    pub fn detect(&self, cell: &BloodCell) -> (b: bool)
        ensures
            b == carries_threat(cell.payload@),
            b <==> (has_infix(cell.payload@, "error"@) || has_infix(cell.payload@, "anomaly"@)
                || has_infix(cell.payload@, "threat"@)),
    {
        let text = cell.payload.as_str();
        contains_text(text, "error") || contains_text(text, "anomaly") || contains_text(
            text,
            "threat",
        )
    }

    /// Neutralize a threat by marking the cell as processed.
    pub fn neutralize(&self, cell: &mut BloodCell) -> (b: bool)
        ensures
            b,
            final(cell).processed,
            final(cell).source == old(cell).source,
            final(cell).kind == old(cell).kind,
            final(cell).payload == old(cell).payload,
    {
        cell.processed = true;
        true
    }
}

// ============================================================================
// Platelets
// ============================================================================

/// Platelet factory: creates repair agents for pipeline breaches.
pub struct Platelets;

impl Platelets {
    /// Create a sealed repair agent for a missing component.
    pub fn repair(&self, target: &str, method: RepairMethod) -> (p: Platelet)
        ensures
            p.target@ == target@,
            p.method == method,
            p.sealed,
    {
        Platelet { target: String::from_str(target), method, sealed: true }
    }
}

// ============================================================================
// CirculatorySystem
// ============================================================================

/// The complete circulatory system.
pub struct CirculatorySystem {
    /// The central pump.
    pub heart: Heart,
    /// Routing infrastructure.
    pub vessels: Vessels,
    /// Threat detection.
    pub white_cells: WhiteCells,
    /// Repair agents.
    pub platelets: Platelets,
}

impl Default for CirculatorySystem {
    fn default() -> (s: Self)
        ensures
            s.heart.cap() == 5000,
            s.heart.cells() == Seq::<BloodCell>::empty(),
    {
        CirculatorySystem {
            heart: Heart::default(),
            vessels: Vessels,
            white_cells: WhiteCells,
            platelets: Platelets,
        }
    }
}

/// The outcome of a circulation that added `added` cells to the heart
/// `before`, leaving it `after`: everything in the bloodstream is pumped,
/// and the result is the pulse, or a low-pressure error when the pressure
/// after the beat is below the healthy range.
pub open spec fn circulation_outcome(
    before: Heart,
    after: Heart,
    added: nat,
    r: Result<Pulse, CirculatoryError>,
) -> bool {
    let load = before.cells().len() + added;
    let p = load_pressure(before.cap(), load);
    &&& after.cells() == Seq::<BloodCell>::empty()
    &&& after.cap() == before.cap()
    &&& if p.healthy() {
        match r {
            Ok(pulse) => {
                &&& pulse.collected == load
                &&& pulse.enriched == load
                &&& pulse.distributed == load
                &&& pulse.pressure == p
                &&& is_rfc3339_utc(pulse.timestamp@)
            },
            Err(_) => false,
        }
    } else {
        r == Err::<Pulse, CirculatoryError>(CirculatoryError::LowPressure(p.ratio_of()))
    }
}

impl CirculatorySystem {
    /// Threat scan: every cell that carries a threat is neutralized.
    fn screen(&self, cells: Vec<BloodCell>) -> (clean: Vec<BloodCell>)
        ensures
            clean@.len() == cells@.len(),
            forall|i: int|
                0 <= i < cells@.len() ==> {
                    &&& (#[trigger] clean@[i]).source == cells@[i].source
                    &&& clean@[i].kind == cells@[i].kind
                    &&& clean@[i].payload == cells@[i].payload
                    &&& clean@[i].processed == (cells@[i].processed || carries_threat(
                        cells@[i].payload@,
                    ))
                },
    {
        let ghost input = cells@;
        let mut clean: Vec<BloodCell> = Vec::with_capacity(cells.len());
        for cell in it: cells.into_iter()
            invariant
                it.seq() == input,
                clean@.len() == it.index(),
                forall|j: int|
                    0 <= j < it.index() ==> {
                        &&& (#[trigger] clean@[j]).source == input[j].source
                        &&& clean@[j].kind == input[j].kind
                        &&& clean@[j].payload == input[j].payload
                        &&& clean@[j].processed == (input[j].processed || carries_threat(
                            input[j].payload@,
                        ))
                    },
        {
            let mut cell = cell;
            if self.white_cells.detect(&cell) {
                self.white_cells.neutralize(&mut cell);
            }
            clean.push(cell);
        }
        clean
    }

    /// Run a full circulation cycle with threat detection: refuse an empty
    /// batch, neutralize threats, collect the cells, pump, and report low
    /// pressure as an error.
    pub fn circulate(&mut self, cells: Vec<BloodCell>) -> (r: Result<Pulse, CirculatoryError>)
        ensures
            cells@.len() == 0 ==> {
                &&& r == Err::<Pulse, CirculatoryError>(CirculatoryError::EmptyBloodstream)
                &&& final(self).heart.cells() == old(self).heart.cells()
                &&& final(self).heart.cap() == old(self).heart.cap()
            },
            cells@.len() > 0 ==> circulation_outcome(
                old(self).heart,
                final(self).heart,
                cells@.len(),
                r,
            ),
    {
        if cells.len() == 0 {
            return Err(CirculatoryError::EmptyBloodstream);
        }
        let clean_cells = self.screen(cells);

        self.heart.collect(clean_cells);
        let pulse = self.heart.pump();

        if !pulse.pressure.is_healthy() {
            let ratio = pulse.pressure.ratio();
            if ratio.is_below(7, 10) {
                return Err(CirculatoryError::LowPressure(ratio));
            }
        }
        Ok(pulse)
    }
}

} // verus!
