use nexcore_circulatory::claude_code::{
    BloodPayload, CirculatoryHealth, FlowDirection, McpScope, McpServer, McpTransport,
    PortalFiltration, SelectivePerfusion, ToolCall,
};
use nexcore_circulatory::ratio::Ratio;

fn as_f64(r: Ratio) -> f64 {
    if r.denominator == 0 {
        0.0
    } else {
        r.numerator as f64 / r.denominator as f64
    }
}

fn health(
    server_count: usize,
    all_responsive: bool,
    portal_filtration_active: bool,
    selective_perfusion_active: bool,
    frank_starling_ratio: Ratio,
) -> CirculatoryHealth {
    CirculatoryHealth {
        server_count,
        all_responsive,
        portal_filtration_active,
        selective_perfusion_active,
        frank_starling_ratio,
    }
}

// --- McpTransport tests ---

#[test]
fn transport_biological_analogs() {
    assert_eq!(
        McpTransport::Stdio.biological_analog(),
        "pulmonary circulation (right heart)"
    );
    assert_eq!(
        McpTransport::Http.biological_analog(),
        "systemic circulation (left heart)"
    );
}

#[test]
fn transport_equality() {
    assert_eq!(McpTransport::Stdio, McpTransport::Stdio);
    assert_ne!(McpTransport::Stdio, McpTransport::Http);
}

// --- McpScope tests ---

#[test]
fn scope_biological_analogs() {
    assert_eq!(McpScope::Local.biological_analog(), "capillary bed");
    assert_eq!(
        McpScope::Project.biological_analog(),
        "organ-level circulation"
    );
    assert_eq!(McpScope::User.biological_analog(), "systemic circulation");
}

// --- McpServer tests ---

#[test]
fn mcp_server_creation() {
    let server = McpServer {
        name: "nexcore".to_string(),
        transport: McpTransport::Stdio,
        tool_count: 260,
        scope: McpScope::User,
        active: true,
    };
    assert_eq!(server.name, "nexcore");
    assert_eq!(server.transport, McpTransport::Stdio);
    assert_eq!(server.tool_count, 260);
    assert!(server.active);
}

// --- ToolCall tests ---

#[test]
fn tool_call_is_always_arterial() {
    let call = ToolCall::new("nexcore", "pv_signal_complete", 128);
    assert_eq!(call.direction, FlowDirection::Arterial);
    assert_eq!(call.server, "nexcore");
    assert_eq!(call.tool_name, "pv_signal_complete");
    assert_eq!(call.params_size_tokens, 128);
}

// --- PortalFiltration tests ---

#[test]
fn portal_filtration_default_limit() {
    let pf = PortalFiltration::default();
    assert_eq!(pf.max_output_tokens, 25_000);
    assert_eq!(pf.filtered_count, 0);
}

#[test]
fn portal_filtration_filters_large_results() {
    let mut pf = PortalFiltration::with_limit(1000);

    // Small result passes through
    let (size, filtered) = pf.filter(500);
    assert_eq!(size, 500);
    assert!(!filtered);

    // Large result gets truncated
    let (size, filtered) = pf.filter(5000);
    assert_eq!(size, 1000);
    assert!(filtered);
    assert_eq!(pf.filtered_count, 1);
    assert_eq!(pf.total_tokens_filtered, 4000);
}

#[test]
fn portal_filtration_ratio() {
    let mut pf = PortalFiltration::with_limit(100);
    let _ = pf.filter(50); // not filtered
    let _ = pf.filter(200); // filtered
    let _ = pf.filter(300); // filtered

    let ratio = as_f64(pf.filtration_ratio(3));
    let diff = (ratio - (2.0 / 3.0)).abs();
    assert!(diff < 0.01);
}

#[test]
fn portal_filtration_ratio_zero_results() {
    let pf = PortalFiltration::default();
    let ratio = as_f64(pf.filtration_ratio(0));
    assert!(ratio.abs() < f64::EPSILON);
}

#[test]
fn portal_filtration_limit_is_inclusive_and_idempotent() {
    let mut pf = PortalFiltration::with_limit(100);
    assert_eq!(pf.filter(100), (100, false));
    assert_eq!(pf.filtered_count, 0);
    let (allowed, cut) = pf.filter(250);
    assert_eq!((allowed, cut), (100, true));
    assert_eq!(pf.total_tokens_filtered, 150);
    let before = pf;
    assert_eq!(pf.filter(allowed), (100, false));
    assert_eq!(pf, before);
}

#[test]
fn portal_filtration_counters_saturate() {
    let mut pf = PortalFiltration {
        max_output_tokens: 0,
        filtered_count: usize::MAX,
        total_tokens_filtered: usize::MAX - 1,
    };
    assert_eq!(pf.filter(5), (0, true));
    assert_eq!(pf.filtered_count, usize::MAX);
    assert_eq!(pf.total_tokens_filtered, usize::MAX);
}

// --- SelectivePerfusion tests ---

#[test]
fn selective_perfusion_calculation() {
    let sp = SelectivePerfusion::new(300, 30);
    assert_eq!(sp.total_tools, 300);
    assert_eq!(sp.deferred_tools, 270);
    assert_eq!(sp.active_tools, 30);
    let diff = (as_f64(sp.perfusion_ratio) - 0.1).abs();
    assert!(diff < 0.01);
    assert!(sp.is_efficient());
}

#[test]
fn selective_perfusion_zero_tools() {
    let sp = SelectivePerfusion::new(0, 0);
    assert!(as_f64(sp.perfusion_ratio).abs() < f64::EPSILON);
}

#[test]
fn selective_perfusion_high_ratio_not_efficient() {
    let sp = SelectivePerfusion::new(100, 50);
    assert!(!sp.is_efficient());
}

#[test]
fn selective_perfusion_edges() {
    assert!(!SelectivePerfusion::new(10, 3).is_efficient());
    assert!(SelectivePerfusion::new(100, 29).is_efficient());
    assert!(SelectivePerfusion::new(0, 5).is_efficient());
    let over = SelectivePerfusion::new(5, 9);
    assert_eq!(over.deferred_tools, 0);
    assert!(!over.is_efficient());
}

// --- BloodPayload tests ---

#[test]
fn blood_payload_defaults_to_json() {
    let bp = BloodPayload::default();
    assert_eq!(bp.plasma_format, "JSON");
    assert_eq!(bp.red_cells, 0);
    assert_eq!(bp.white_cells, 0);
    assert_eq!(bp.platelets, 0);
}

// --- CirculatoryHealth::diagnose tests ---

#[test]
fn diagnose_healthy_system() {
    let health = health(5, true, true, true, Ratio::new(1, 1));
    let (is_healthy, messages) = health.diagnose();
    assert!(is_healthy);
    assert_eq!(messages.len(), 5);
    // All messages should start with "OK:"
    for msg in &messages {
        assert!(msg.starts_with("OK:"), "expected OK, got: {msg}");
    }
}

#[test]
fn diagnose_no_servers_is_critical() {
    let health = health(0, false, true, true, Ratio::new(1, 1));
    let (is_healthy, messages) = health.diagnose();
    assert!(!is_healthy);
    let has_critical = messages.iter().any(|m| m.contains("CRITICAL"));
    assert!(has_critical);
}

#[test]
fn diagnose_unresponsive_servers() {
    let health = health(3, false, true, true, Ratio::new(2, 1));
    let (is_healthy, _messages) = health.diagnose();
    assert!(!is_healthy);
}

#[test]
fn diagnose_no_portal_filtration() {
    let health = health(5, true, false, true, Ratio::new(3, 2));
    let (is_healthy, messages) = health.diagnose();
    assert!(!is_healthy);
    let has_filtration_warning = messages
        .iter()
        .any(|m| m.contains("portal filtration inactive"));
    assert!(has_filtration_warning);
}

#[test]
fn diagnose_frank_starling_undercompensation() {
    let health = health(5, true, true, true, Ratio::new(1, 2));
    let (is_healthy, messages) = health.diagnose();
    assert!(!is_healthy);
    let has_fs_warning = messages.iter().any(|m| m.contains("below baseline"));
    assert!(has_fs_warning);
}

#[test]
fn diagnose_exact_lines() {
    let (healthy, messages) = health(2, true, true, false, Ratio::new(9, 2)).diagnose();
    assert!(healthy);
    assert_eq!(
        messages,
        vec![
            "WARNING: only 2 MCP servers (target: 5) — reduced perfusion".to_string(),
            "OK: all servers responsive — full perfusion".to_string(),
            "OK: portal filtration active — context protected".to_string(),
            "INFO: selective perfusion inactive — all tools loaded (higher memory usage)"
                .to_string(),
            "WARNING: Frank-Starling ratio 4.50 above maximum — timeout overcompensation"
                .to_string(),
        ]
    );
    let (_, messages) = health(5, true, true, true, Ratio::new(4, 1)).diagnose();
    assert_eq!(messages[0], "OK: 5 MCP servers registered");
    assert_eq!(messages[4], "OK: Frank-Starling ratio 4.00 — normal cardiac output");
    let (healthy, messages) = health(7, true, true, true, Ratio::new(0, 0)).diagnose();
    assert!(!healthy);
    assert_eq!(
        messages[4],
        "WARNING: Frank-Starling ratio 0.00 below baseline — timeout undercompensation"
    );
}
