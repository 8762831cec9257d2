//! # MCP transport network as a circulatory system
//!
//! | Biological structure | MCP analog | Function |
//! |----------------------|------------|----------|
//! | Heart | MCP server manager | Central pump orchestrating transport |
//! | Right heart | stdio transport | Local process communication |
//! | Left heart | HTTP transport | Remote API calls |
//! | Arteries | Outbound tool calls | Commands flowing to servers |
//! | Veins | Tool results | Data flowing back to the agent |
//! | Portal filtration | Maximum output tokens | Filtering external data |
//! | Selective perfusion | Deferred tool loading | On-demand tool loading |
//! | Frank-Starling law | Timeout scaling | Timeout grows with load |
//!
//! Tool scopes are circulatory regions: local (capillary bed), project
//! (organ level), user (systemic circulation).

use vstd::prelude::*;

use crate::ratio::Ratio;
use crate::text::{decimal, decimal_text};

verus! {

// ============================================================================
// McpTransport
// ============================================================================

/// MCP transport type modeling dual circulation.
#[derive(Debug, Clone, Copy, PartialEq, Eq, Hash, Structural)]
pub enum McpTransport {
    /// Right heart: stdio transport for local process communication.
    Stdio,
    /// Left heart: HTTP transport for remote API calls.
    Http,
}

impl McpTransport {
    /// The biological analog of each transport.
    pub open spec fn analog(self) -> Seq<char> {
        match self {
            McpTransport::Stdio => "pulmonary circulation (right heart)"@,
            McpTransport::Http => "systemic circulation (left heart)"@,
        }
    }

    /// Returns the biological analog name for this transport type.
    pub fn biological_analog(&self) -> (s: &'static str)
        ensures
            s@ == self.analog(),
    {
        match self {
            McpTransport::Stdio => "pulmonary circulation (right heart)",
            McpTransport::Http => "systemic circulation (left heart)",
        }
    }
}

// ============================================================================
// McpScope
// ============================================================================

/// MCP tool scope as a circulatory region.
#[derive(Debug, Clone, Copy, PartialEq, Eq, Hash, Structural)]
pub enum McpScope {
    /// Capillary bed: tools scoped to a single project directory.
    Local,
    /// Organ-level: tools scoped to a project workspace.
    Project,
    /// Systemic circulation: tools available across all projects.
    User,
}

impl McpScope {
    /// The biological analog of each scope.
    pub open spec fn analog(self) -> Seq<char> {
        match self {
            McpScope::Local => "capillary bed"@,
            McpScope::Project => "organ-level circulation"@,
            McpScope::User => "systemic circulation"@,
        }
    }

    /// Returns the biological analog for this scope level.
    pub fn biological_analog(&self) -> (s: &'static str)
        ensures
            s@ == self.analog(),
    {
        match self {
            McpScope::Local => "capillary bed",
            McpScope::Project => "organ-level circulation",
            McpScope::User => "systemic circulation",
        }
    }
}

// ============================================================================
// FlowDirection, McpServer, McpHeartbeat
// ============================================================================

/// Direction of data flow through the MCP transport network.
#[derive(Debug, Clone, Copy, PartialEq, Eq, Hash, Structural)]
pub enum FlowDirection {
    /// Arterial: outbound MCP tool calls.
    Arterial,
    /// Venous: inbound MCP tool results.
    Venous,
}

/// An MCP server registered with the agent.
#[derive(Debug, Clone)]
pub struct McpServer {
    /// Server name.
    pub name: String,
    /// Transport type: stdio (local) or HTTP (remote).
    pub transport: McpTransport,
    /// Number of tools this server exposes.
    pub tool_count: usize,
    /// Scope at which this server's tools are available.
    pub scope: McpScope,
    /// Whether the server is currently active and responsive.
    pub active: bool,
}

/// A heartbeat representing one circulatory cycle to an MCP server.
#[derive(Debug, Clone)]
pub struct McpHeartbeat {
    /// Which server was checked.
    pub server_name: String,
    /// Transport used for this heartbeat.
    pub transport: McpTransport,
    /// Round-trip latency in milliseconds.
    pub latency_ms: u64,
    /// Whether the server responded to the heartbeat.
    pub is_responsive: bool,
}

// ============================================================================
// ToolCall, ToolResult
// ============================================================================

/// An outbound MCP tool call (arterial flow).
#[derive(Debug, Clone)]
pub struct ToolCall {
    /// Target MCP server.
    pub server: String,
    /// Tool being invoked.
    pub tool_name: String,
    /// Size of parameters in tokens.
    pub params_size_tokens: usize,
    /// Direction of flow (always arterial for calls).
    pub direction: FlowDirection,
}

impl ToolCall {
    /// Create a new outbound tool call; calls always flow arterially.
    pub fn new(server: &str, tool_name: &str, params_size_tokens: usize) -> (c: Self)
        ensures
            c.server@ == server@,
            c.tool_name@ == tool_name@,
            c.params_size_tokens == params_size_tokens,
            c.direction == FlowDirection::Arterial,
    {
        ToolCall {
            server: String::from_str(server),
            tool_name: String::from_str(tool_name),
            params_size_tokens,
            direction: FlowDirection::Arterial,
        }
    }
}

/// An inbound MCP tool result (venous flow).
#[derive(Debug, Clone)]
pub struct ToolResult {
    /// Source MCP server.
    pub server: String,
    /// Tool that produced this result.
    pub tool_name: String,
    /// Size of result in tokens.
    pub result_size_tokens: usize,
    /// Whether the result was truncated due to size limits.
    pub truncated: bool,
    /// Whether portal filtration was applied.
    pub portal_filtered: bool,
}

// ============================================================================
// PortalFiltration
// ============================================================================

/// Portal filtration: caps how many tokens of a tool result may enter the
/// agent's context, and keeps count of what it cut.
#[derive(Debug, Clone, Copy, PartialEq, Eq, Structural)]
pub struct PortalFiltration {
    /// Maximum output tokens allowed per tool result (default: 25000).
    pub max_output_tokens: usize,
    /// Number of results that were filtered (truncated).
    pub filtered_count: usize,
    /// Total tokens removed by filtration.
    pub total_tokens_filtered: usize,
}

/// One filtration step: the tracker after filtering a result of
/// `result_tokens` tokens, and the pair (tokens let through, whether the
/// result was cut). Counters saturate.
pub open spec fn filtration_step(pf: PortalFiltration, result_tokens: usize) -> (
    PortalFiltration,
    (usize, bool),
) {
    if result_tokens > pf.max_output_tokens {
        (
            PortalFiltration {
                max_output_tokens: pf.max_output_tokens,
                filtered_count: pf.filtered_count.saturating_add(1),
                total_tokens_filtered: pf.total_tokens_filtered.saturating_add(
                    (result_tokens - pf.max_output_tokens) as usize,
                ),
            },
            (pf.max_output_tokens, true),
        )
    } else {
        (pf, (result_tokens, false))
    }
}

impl Default for PortalFiltration {
    fn default() -> (pf: Self)
        ensures
            pf.max_output_tokens == 25_000,
            pf.filtered_count == 0,
            pf.total_tokens_filtered == 0,
    {
        PortalFiltration { max_output_tokens: 25_000, filtered_count: 0, total_tokens_filtered: 0 }
    }
}

impl PortalFiltration {
    /// Create a portal filtration tracker with the given token limit.
    pub fn with_limit(max_output_tokens: usize) -> (pf: Self)
        ensures
            pf.max_output_tokens == max_output_tokens,
            pf.filtered_count == 0,
            pf.total_tokens_filtered == 0,
    {
        PortalFiltration { max_output_tokens, filtered_count: 0, total_tokens_filtered: 0 }
    }

    /// Apply filtration to a result size. Returns the allowed size and
    /// whether filtration was applied.
    pub fn filter(&mut self, result_tokens: usize) -> (r: (usize, bool))
        ensures
            (*final(self), r) == filtration_step(*old(self), result_tokens),
            final(self).max_output_tokens == old(self).max_output_tokens,
            result_tokens > old(self).max_output_tokens ==> {
                &&& r == (old(self).max_output_tokens, true)
                &&& final(self).filtered_count == old(self).filtered_count.saturating_add(1)
                &&& final(self).total_tokens_filtered == old(self).total_tokens_filtered.saturating_add(
                    (result_tokens - old(self).max_output_tokens) as usize,
                )
            },
            result_tokens <= old(self).max_output_tokens ==> {
                &&& r == (result_tokens, false)
                &&& *final(self) == *old(self)
            },
    {
        if result_tokens > self.max_output_tokens {
            let excess = result_tokens.saturating_sub(self.max_output_tokens);
            self.filtered_count = self.filtered_count.saturating_add(1);
            self.total_tokens_filtered = self.total_tokens_filtered.saturating_add(excess);
            (self.max_output_tokens, true)
        } else {
            (result_tokens, false)
        }
    }

    /// Filtration ratio: filtered results over `total_results` (zero when no
    /// results have been processed).
    pub fn filtration_ratio(&self, total_results: usize) -> (r: Ratio)
        ensures
            r == (Ratio { numerator: self.filtered_count as u64, denominator: total_results as u64 }),
    {
        Ratio::new(self.filtered_count as u64, total_results as u64)
    }
}

/// A result over the limit is cut to exactly the limit, counted once, and
/// adds its excess over the limit to the tokens filtered (saturating); a
/// result within the limit passes whole and leaves the tracker unchanged.
pub proof fn lemma_filtration_cuts_to_limit(pf: PortalFiltration, result_tokens: usize)
    ensures
        ({
            let (after, (allowed, cut)) = filtration_step(pf, result_tokens);
            &&& result_tokens > pf.max_output_tokens ==> {
                &&& allowed == pf.max_output_tokens
                &&& cut
                &&& after.filtered_count == pf.filtered_count.saturating_add(1)
                &&& after.total_tokens_filtered == pf.total_tokens_filtered.saturating_add(
                    (result_tokens - pf.max_output_tokens) as usize,
                )
            }
            &&& result_tokens <= pf.max_output_tokens ==> {
                &&& allowed == result_tokens
                &&& !cut
                &&& after == pf
            }
        }),
{
}

/// What filtration lets through is the result, cut to the limit: never more
/// than the limit; the cut counts one more filtered result and adds what was
/// cut to the tokens filtered (both saturating), and a result within the
/// limit leaves the counters alone.
pub proof fn lemma_filtration_conserves(pf: PortalFiltration, result_tokens: usize)
    ensures
        ({
            let (after, (allowed, cut)) = filtration_step(pf, result_tokens);
            &&& allowed <= pf.max_output_tokens
            &&& allowed <= result_tokens
            &&& cut <==> allowed < result_tokens
            &&& after.max_output_tokens == pf.max_output_tokens
            &&& after.filtered_count == if cut {
                pf.filtered_count.saturating_add(1)
            } else {
                pf.filtered_count
            }
            &&& after.total_tokens_filtered == pf.total_tokens_filtered.saturating_add(
                (result_tokens - allowed) as usize,
            )
        }),
{
}

/// Filtering is idempotent: what passed the filter passes it again,
/// unchanged and without touching the counters.
pub proof fn lemma_filtration_idempotent(pf: PortalFiltration, result_tokens: usize)
    ensures
        ({
            let (after, (allowed, _)) = filtration_step(pf, result_tokens);
            filtration_step(after, allowed) == (after, (allowed, false))
        }),
{
}

// ============================================================================
// SelectivePerfusion
// ============================================================================

/// Selective perfusion: on-demand tool loading.
#[derive(Debug, Clone, Copy, PartialEq, Eq, Structural)]
pub struct SelectivePerfusion {
    /// Total number of tools across all MCP servers.
    pub total_tools: usize,
    /// Number of tools in deferred (unloaded) state.
    pub deferred_tools: usize,
    /// Number of tools currently active (loaded and available).
    pub active_tools: usize,
    /// Perfusion ratio: active tools over total tools.
    pub perfusion_ratio: Ratio,
}

impl SelectivePerfusion {
    /// Create a new perfusion state from tool counts.
    pub fn new(total_tools: usize, active_tools: usize) -> (sp: Self)
        ensures
            sp.total_tools == total_tools,
            sp.active_tools == active_tools,
            sp.deferred_tools == total_tools.saturating_sub(active_tools),
            sp.perfusion_ratio == (Ratio {
                numerator: active_tools as u64,
                denominator: total_tools as u64,
            }),
    {
        let deferred_tools = total_tools.saturating_sub(active_tools);
        let perfusion_ratio = Ratio::new(active_tools as u64, total_tools as u64);
        SelectivePerfusion { total_tools, deferred_tools, active_tools, perfusion_ratio }
    }

    /// Whether perfusion is efficient: the ratio is below 0.3.
    pub fn is_efficient(&self) -> (b: bool)
        ensures
            b == self.perfusion_ratio.below(3, 10),
    {
        self.perfusion_ratio.is_below(3, 10)
    }
}

// ============================================================================
// BloodPayload
// ============================================================================

/// The composite blood payload flowing through MCP transport.
#[derive(Debug, Clone)]
pub struct BloodPayload {
    /// Red blood cells: tool results carrying useful data.
    pub red_cells: usize,
    /// White blood cells: permission checks performed.
    pub white_cells: usize,
    /// Platelets: error recoveries triggered.
    pub platelets: usize,
    /// Plasma format: the transport medium protocol.
    pub plasma_format: String,
}

impl Default for BloodPayload {
    fn default() -> (bp: Self)
        ensures
            bp.red_cells == 0,
            bp.white_cells == 0,
            bp.platelets == 0,
            bp.plasma_format@ == "JSON"@,
    {
        BloodPayload {
            red_cells: 0,
            white_cells: 0,
            platelets: 0,
            plasma_format: String::from_str("JSON"),
        }
    }
}

// ============================================================================
// CirculatoryHealth
// ============================================================================

/// System-wide circulatory health assessment for the MCP transport network.
#[derive(Debug, Clone, Copy, PartialEq, Eq, Structural)]
pub struct CirculatoryHealth {
    /// Number of registered MCP servers (target: 5).
    pub server_count: usize,
    /// Whether all registered servers responded to heartbeat.
    pub all_responsive: bool,
    /// Whether portal filtration is active.
    pub portal_filtration_active: bool,
    /// Whether selective perfusion (deferred tool loading) is active.
    pub selective_perfusion_active: bool,
    /// Frank-Starling ratio (adjusted timeout over base timeout).
    pub frank_starling_ratio: Ratio,
}

/// `a`, then `b`, then `c`.
fn concat3(a: &str, b: &str, c: &str) -> (s: String)
    ensures
        s@ == a@ + b@ + c@,
{
    let mut s = String::from_str(a);
    s.append(b);
    s.append(c);
    s
}

impl CirculatoryHealth {
    /// The line on the number of servers.
    pub open spec fn server_line(self) -> Seq<char> {
        if self.server_count == 0 {
            "CRITICAL: no MCP servers registered — circulatory arrest"@
        } else if self.server_count < 3 {
            "WARNING: only "@ + decimal(self.server_count as nat)
                + " MCP servers (target: 5) — reduced perfusion"@
        } else {
            "OK: "@ + decimal(self.server_count as nat) + " MCP servers registered"@
        }
    }

    /// The line on responsiveness.
    pub open spec fn responsive_line(self) -> Seq<char> {
        if !self.all_responsive {
            "WARNING: not all servers responsive — partial ischemia"@
        } else {
            "OK: all servers responsive — full perfusion"@
        }
    }

    /// The line on portal filtration.
    pub open spec fn filtration_line(self) -> Seq<char> {
        if !self.portal_filtration_active {
            "WARNING: portal filtration inactive — risk of context flooding"@
        } else {
            "OK: portal filtration active — context protected"@
        }
    }

    /// The line on selective perfusion.
    pub open spec fn perfusion_line(self) -> Seq<char> {
        if !self.selective_perfusion_active {
            "INFO: selective perfusion inactive — all tools loaded (higher memory usage)"@
        } else {
            "OK: selective perfusion active — efficient tool loading"@
        }
    }

    /// The line on the Frank-Starling ratio (normal range 1.0 to 4.0).
    pub open spec fn frank_starling_line(self) -> Seq<char> {
        let r = self.frank_starling_ratio;
        if r.below(1, 1) {
            "WARNING: Frank-Starling ratio "@ + r.fixed2()
                + " below baseline — timeout undercompensation"@
        } else if r.above(4, 1) {
            "WARNING: Frank-Starling ratio "@ + r.fixed2()
                + " above maximum — timeout overcompensation"@
        } else {
            "OK: Frank-Starling ratio "@ + r.fixed2() + " — normal cardiac output"@
        }
    }

    /// The five diagnostic lines, in order.
    pub open spec fn diagnosis(self) -> Seq<Seq<char>> {
        seq![
            self.server_line(),
            self.responsive_line(),
            self.filtration_line(),
            self.perfusion_line(),
            self.frank_starling_line(),
        ]
    }

    /// The network is healthy when some server is registered, all servers
    /// respond, portal filtration is active, and the Frank-Starling ratio is
    /// not below 1.0. Few servers, inactive perfusion and a ratio above 4.0
    /// only warn.
    pub open spec fn healthy(self) -> bool {
        &&& self.server_count > 0
        &&& self.all_responsive
        &&& self.portal_filtration_active
        &&& !self.frank_starling_ratio.below(1, 1)
    }

    /// Diagnose the health of the MCP circulatory network. Returns whether
    /// it is healthy, and one diagnostic line for each of server count,
    /// responsiveness, portal filtration, selective perfusion and the
    /// Frank-Starling ratio.
    pub fn diagnose(&self) -> (r: (bool, Vec<String>))
        ensures
            r.0 == self.healthy(),
            r.0 <==> (self.server_count > 0 && self.all_responsive
                && self.portal_filtration_active && self.frank_starling_ratio.denominator > 0
                && self.frank_starling_ratio.numerator >= self.frank_starling_ratio.denominator),
            self.server_count == 0 ==> !r.0,
            r.1@.len() == 5,
            r.1.deep_view() == self.diagnosis(),
    {
        let mut messages: Vec<String> = Vec::new();
        let mut healthy = true;

        // Server count
        if self.server_count == 0 {
            messages.push(String::from_str("CRITICAL: no MCP servers registered — circulatory arrest"));
            healthy = false;
        } else if self.server_count < 3 {
            let n = decimal_text(self.server_count as u64);
            messages.push(
                concat3(
                    "WARNING: only ",
                    n.as_str(),
                    " MCP servers (target: 5) — reduced perfusion",
                ),
            );
        } else {
            let n = decimal_text(self.server_count as u64);
            messages.push(concat3("OK: ", n.as_str(), " MCP servers registered"));
        }

        // Responsiveness
        if !self.all_responsive {
            messages.push(String::from_str("WARNING: not all servers responsive — partial ischemia"));
            healthy = false;
        } else {
            messages.push(String::from_str("OK: all servers responsive — full perfusion"));
        }

        // Portal filtration
        if !self.portal_filtration_active {
            messages.push(
                String::from_str("WARNING: portal filtration inactive — risk of context flooding"),
            );
            healthy = false;
        } else {
            messages.push(String::from_str("OK: portal filtration active — context protected"));
        }

        // Selective perfusion
        if !self.selective_perfusion_active {
            messages.push(
                String::from_str(
                    "INFO: selective perfusion inactive — all tools loaded (higher memory usage)",
                ),
            );
        } else {
            messages.push(
                String::from_str("OK: selective perfusion active — efficient tool loading"),
            );
        }

        // Frank-Starling ratio
        let ratio = self.frank_starling_ratio;
        let shown = ratio.fixed2_text();
        if ratio.is_below(1, 1) {
            messages.push(
                concat3(
                    "WARNING: Frank-Starling ratio ",
                    shown.as_str(),
                    " below baseline — timeout undercompensation",
                ),
            );
            healthy = false;
        } else if ratio.is_above(4, 1) {
            messages.push(
                concat3(
                    "WARNING: Frank-Starling ratio ",
                    shown.as_str(),
                    " above maximum — timeout overcompensation",
                ),
            );
        } else {
            messages.push(
                concat3("OK: Frank-Starling ratio ", shown.as_str(), " — normal cardiac output"),
            );
        }

        assert(messages.deep_view() =~= self.diagnosis());
        (healthy, messages)
    }
}

/// The network is healthy exactly when some server is registered, all
/// respond, portal filtration is active and the Frank-Starling ratio is a
/// quotient of at least 1; in particular a network with no server is never
/// healthy, and its first line reports circulatory arrest.
pub proof fn lemma_health_conditions(h: CirculatoryHealth)
    ensures
        h.healthy() <==> (h.server_count > 0 && h.all_responsive && h.portal_filtration_active
            && h.frank_starling_ratio.denominator > 0 && h.frank_starling_ratio.numerator
            >= h.frank_starling_ratio.denominator),
        h.server_count == 0 ==> !h.healthy(),
        h.server_count == 0 ==> h.diagnosis()[0]
            == "CRITICAL: no MCP servers registered — circulatory arrest"@,
{
}

/// A fully clear network (at least three servers, all responsive, portal
/// filtration and selective perfusion active, Frank-Starling ratio within
/// 1.0 to 4.0) is healthy, and every diagnostic line reads "OK:".
pub proof fn lemma_all_clear_reads_ok(h: CirculatoryHealth)
    requires
        h.server_count >= 3,
        h.all_responsive,
        h.portal_filtration_active,
        h.selective_perfusion_active,
        !h.frank_starling_ratio.below(1, 1),
        !h.frank_starling_ratio.above(4, 1),
    ensures
        h.healthy(),
        forall|i: int| 0 <= i < 5 ==> "OK:"@.is_prefix_of(#[trigger] h.diagnosis()[i]),
{
    reveal_strlit("OK:");
    reveal_strlit("OK: ");
    reveal_strlit("OK: all servers responsive — full perfusion");
    reveal_strlit("OK: portal filtration active — context protected");
    reveal_strlit("OK: selective perfusion active — efficient tool loading");
    reveal_strlit("OK: Frank-Starling ratio ");
    let d = h.diagnosis();
    assert forall|i: int| 0 <= i < 5 implies "OK:"@.is_prefix_of(#[trigger] d[i]) by {
        assert(d[i].subrange(0, 3) =~= "OK:"@);
    }
}

/// An unhealthy network is reported: some diagnostic line reads
/// "CRITICAL:" or "WARNING:".
pub proof fn lemma_unhealthy_is_reported(h: CirculatoryHealth)
    requires
        !h.healthy(),
    ensures
        exists|i: int|
            0 <= i < 5 && ("CRITICAL:"@.is_prefix_of(#[trigger] h.diagnosis()[i])
                || "WARNING:"@.is_prefix_of(h.diagnosis()[i])),
{
    reveal_strlit("CRITICAL:");
    reveal_strlit("WARNING:");
    reveal_strlit("CRITICAL: no MCP servers registered — circulatory arrest");
    reveal_strlit("WARNING: not all servers responsive — partial ischemia");
    reveal_strlit("WARNING: portal filtration inactive — risk of context flooding");
    reveal_strlit("WARNING: Frank-Starling ratio ");
    let d = h.diagnosis();
    if h.server_count == 0 {
        assert(d[0].subrange(0, 9) =~= "CRITICAL:"@);
        assert("CRITICAL:"@.is_prefix_of(d[0]));
    } else if !h.all_responsive {
        assert(d[1].subrange(0, 8) =~= "WARNING:"@);
        assert("WARNING:"@.is_prefix_of(d[1]));
    } else if !h.portal_filtration_active {
        assert(d[2].subrange(0, 8) =~= "WARNING:"@);
        assert("WARNING:"@.is_prefix_of(d[2]));
    } else {
        assert(d[4].subrange(0, 8) =~= "WARNING:"@);
        assert("WARNING:"@.is_prefix_of(d[4]));
    }
}

} // verus!
