//! Detection rules over sensor events.

use vstd::prelude::*;

use crate::normalise::{contains_exec, contains_text, has_prefix, has_prefix_exec, normalise_path, normalise_text, path_key, text_key};
use crate::policy::names_of;
use crate::text::{chars_of, str_equal};

verus! {

/// A detection raised by the rules engine.
#[derive(Debug, Clone)]
pub struct DetectionSummary {
    pub detection_id: String,
    pub severity: u8,
    pub rule_id: String,
    pub title: String,
    pub description: String,
    pub event_id: String,
    pub confidence: u8,
}

/// Settings of rule evaluation.
#[derive(Debug, Clone)]
pub struct EdrConfig {
    pub max_detections_per_cycle: usize,
    pub suspicious_ports: Vec<u16>,
    pub sensitive_paths: Vec<String>,
}

/// Normalised events emitted by platform sensors for rule evaluation.
#[derive(Debug, Clone)]
pub enum EdrEventKind {
    ProcessStart { image_path: String, command_line: String, parent_image: String, is_signed: bool },
    FileWrite { path: String, size_bytes: u64, originating_process: String },
    NetworkConnection {
        destination_ip: String,
        destination_port: u16,
        protocol: String,
        process_name: String,
    },
}

/// Single EDR event with a stable identifier and timestamp for correlation.
#[derive(Debug, Clone)]
pub struct EdrEvent {
    pub event_id: String,
    pub timestamp_unix_ms: u64,
    pub kind: EdrEventKind,
}

/// What an event must show for a rule to fire.
#[derive(Debug, Clone)]
pub enum RuleMatcher {
    /// The normalised command line of a process start holds one of the tokens.
    ProcessCommandContains(Vec<String>),
    /// An unsigned process started from under one of the directories.
    UnsignedExecutionFromDirs(Vec<String>),
    /// A connection to one of the ports.
    NetworkPortIn(Vec<u16>),
    /// A file written under one of the configured sensitive paths.
    FileWriteToSensitiveDirs,
}

/// A detection rule.
#[derive(Debug, Clone)]
pub struct EdrRule {
    pub id: String,
    pub title: String,
    pub description: String,
    pub severity: u8,
    pub matcher: RuleMatcher,
}

impl RuleMatcher {
    pub open spec fn matches_spec(&self, event: &EdrEvent, config: &EdrConfig) -> bool {
        match self {
            RuleMatcher::ProcessCommandContains(tokens) => match event.kind {
                EdrEventKind::ProcessStart { command_line, .. } => exists|i: int|
                    0 <= i < tokens@.len() && contains_text(text_key(command_line@), #[trigger] tokens@[i]@),
                _ => false,
            },
            RuleMatcher::UnsignedExecutionFromDirs(dirs) => match event.kind {
                EdrEventKind::ProcessStart { image_path, is_signed, .. } => !is_signed && exists|i: int|
                    0 <= i < dirs@.len() && has_prefix(path_key(image_path@), #[trigger] dirs@[i]@),
                _ => false,
            },
            RuleMatcher::NetworkPortIn(ports) => match event.kind {
                EdrEventKind::NetworkConnection { destination_port, .. } => ports@.contains(destination_port),
                _ => false,
            },
            RuleMatcher::FileWriteToSensitiveDirs => match event.kind {
                EdrEventKind::FileWrite { path, .. } => exists|i: int|
                    0 <= i < config.sensitive_paths@.len() && has_prefix(
                        path_key(path@),
                        path_key(#[trigger] config.sensitive_paths@[i]@),
                    ),
                _ => false,
            },
        }
    }

    /// Whether the rule fires on `event`.
    #[verifier::loop_isolation(false)]
    pub fn matches(&self, event: &EdrEvent, config: &EdrConfig) -> (r: bool)
        ensures
            r == self.matches_spec(event, config),
    {
        match self {
            RuleMatcher::ProcessCommandContains(tokens) => match &event.kind {
                EdrEventKind::ProcessStart { command_line, .. } => {
                    let normalised = normalise_text(command_line.as_str());
                    let mut i: usize = 0;
                    while i < tokens.len()
                        invariant
                            i <= tokens@.len(),
                            normalised@ == text_key(command_line@),
                            forall|j: int| 0 <= j < i ==> !contains_text(normalised@, #[trigger] tokens@[j]@),
                        decreases tokens.len() - i,
                    {
                        let token = chars_of(tokens[i].as_str());
                        if contains_exec(&normalised, &token) {
                            assert(contains_text(text_key(command_line@), tokens@[i as int]@));
                            return true;
                        }
                        i = i + 1;
                    }
                    false
                },
                _ => false,
            },
            RuleMatcher::UnsignedExecutionFromDirs(dirs) => match &event.kind {
                EdrEventKind::ProcessStart { image_path, is_signed, .. } => {
                    if *is_signed {
                        return false;
                    }
                    let path = normalise_path(image_path.as_str());
                    let mut i: usize = 0;
                    while i < dirs.len()
                        invariant
                            i <= dirs@.len(),
                            path@ == path_key(image_path@),
                            forall|j: int| 0 <= j < i ==> !has_prefix(path@, #[trigger] dirs@[j]@),
                        decreases dirs.len() - i,
                    {
                        let dir = chars_of(dirs[i].as_str());
                        if has_prefix_exec(&path, &dir) {
                            assert(has_prefix(path_key(image_path@), dirs@[i as int]@));
                            return true;
                        }
                        i = i + 1;
                    }
                    false
                },
                _ => false,
            },
            RuleMatcher::NetworkPortIn(ports) => match &event.kind {
                EdrEventKind::NetworkConnection { destination_port, .. } => {
                    let mut i: usize = 0;
                    while i < ports.len()
                        invariant
                            i <= ports@.len(),
                            forall|j: int| 0 <= j < i ==> ports@[j] != *destination_port,
                        decreases ports.len() - i,
                    {
                        if ports[i] == *destination_port {
                            assert(ports@[i as int] == *destination_port);
                            assert(ports@.contains(*destination_port));
                            return true;
                        }
                        i = i + 1;
                    }
                    false
                },
                _ => false,
            },
            RuleMatcher::FileWriteToSensitiveDirs => match &event.kind {
                EdrEventKind::FileWrite { path, .. } => {
                    let normalised = normalise_path(path.as_str());
                    let paths = &config.sensitive_paths;
                    let mut i: usize = 0;
                    while i < paths.len()
                        invariant
                            i <= paths@.len(),
                            paths == &config.sensitive_paths,
                            normalised@ == path_key(path@),
                            forall|j: int|
                                0 <= j < i ==> !has_prefix(normalised@, path_key(#[trigger] paths@[j]@)),
                        decreases paths.len() - i,
                    {
                        let entry = normalise_path(paths[i].as_str());
                        if has_prefix_exec(&normalised, &entry) {
                            assert(has_prefix(path_key(path@), path_key(paths@[i as int]@)));
                            return true;
                        }
                        i = i + 1;
                    }
                    false
                },
                _ => false,
            },
        }
    }
}

/// How sure a rule is of what it found on an event.
pub open spec fn confidence_spec(rule: &EdrRule, event: &EdrEvent) -> u8 {
    match rule.matcher {
        RuleMatcher::ProcessCommandContains(_) => match event.kind {
            EdrEventKind::ProcessStart { command_line, .. } => if contains_text(
                text_key(command_line@),
                "-encodedcommand"@,
            ) {
                85
            } else {
                70
            },
            _ => 40,
        },
        RuleMatcher::UnsignedExecutionFromDirs(_) => match event.kind {
            EdrEventKind::ProcessStart { is_signed, .. } => if is_signed {
                30
            } else {
                80
            },
            _ => 40,
        },
        RuleMatcher::NetworkPortIn(_) => match event.kind {
            EdrEventKind::NetworkConnection { destination_port, .. } => if destination_port == 4444 {
                75
            } else {
                60
            },
            _ => 40,
        },
        RuleMatcher::FileWriteToSensitiveDirs => match event.kind {
            EdrEventKind::FileWrite { .. } => 55,
            _ => 40,
        },
    }
}

fn calculate_confidence(rule: &EdrRule, event: &EdrEvent) -> (r: u8)
    ensures
        r == confidence_spec(rule, event),
{
    match &rule.matcher {
        RuleMatcher::ProcessCommandContains(_) => match &event.kind {
            EdrEventKind::ProcessStart { command_line, .. } => {
                let normalised = normalise_text(command_line.as_str());
                let flag = chars_of("-encodedcommand");
                if contains_exec(&normalised, &flag) {
                    85
                } else {
                    70
                }
            },
            _ => 40,
        },
        RuleMatcher::UnsignedExecutionFromDirs(_) => match &event.kind {
            EdrEventKind::ProcessStart { is_signed, .. } => if *is_signed {
                30
            } else {
                80
            },
            _ => 40,
        },
        RuleMatcher::NetworkPortIn(_) => match &event.kind {
            EdrEventKind::NetworkConnection { destination_port, .. } => if *destination_port == 4444 {
                75
            } else {
                60
            },
            _ => 40,
        },
        RuleMatcher::FileWriteToSensitiveDirs => match &event.kind {
            EdrEventKind::FileWrite { .. } => 55,
            _ => 40,
        },
    }
}

/// The identifier of the detection that `rule_id` raises on `event_id`.
pub open spec fn detection_key(rule_id: Seq<char>, event_id: Seq<char>) -> Seq<char> {
    "det-"@ + rule_id + "-"@ + event_id
}

/// `d` reports `rule` firing on `event`.
pub open spec fn describes(d: DetectionSummary, rule: EdrRule, event: EdrEvent) -> bool {
    &&& d.detection_id@ == detection_key(rule.id@, event.event_id@)
    &&& d.severity == rule.severity
    &&& d.rule_id@ == rule.id@
    &&& d.title@ == rule.title@
    &&& d.description@ == rule.description@
    &&& d.event_id@ == event.event_id@
    &&& d.confidence == confidence_spec(&rule, &event)
}

/// Detections found so far reach the cap; the check follows each new one.
pub open spec fn is_capped(found: Seq<(int, int)>, max: usize) -> bool {
    found.len() > 0 && found.len() >= max
}

pub open spec fn key_of(events: Seq<EdrEvent>, rules: Seq<EdrRule>, p: (int, int)) -> Seq<char> {
    detection_key(rules[p.1].id@, events[p.0].event_id@)
}

pub open spec fn key_seen(events: Seq<EdrEvent>, rules: Seq<EdrRule>, found: Seq<(int, int)>, key: Seq<char>) -> bool {
    exists|k: int| 0 <= k < found.len() && key_of(events, rules, #[trigger] found[k]) == key
}

/// Rule `r` tried on event `e`: a new detection is kept when the rule fires,
/// its identifier is new and the cap is not reached.
pub open spec fn scan_step(
    events: Seq<EdrEvent>,
    rules: Seq<EdrRule>,
    config: &EdrConfig,
    found: Seq<(int, int)>,
    e: int,
    r: int,
) -> Seq<(int, int)> {
    if is_capped(found, config.max_detections_per_cycle) {
        found
    } else if rules[r].matcher.matches_spec(&events[e], config) && !key_seen(
        events,
        rules,
        found,
        key_of(events, rules, (e, r)),
    ) {
        found.push((e, r))
    } else {
        found
    }
}

/// The (event, rule) pairs kept once the events before `e`, and the rules
/// before `r` on event `e`, have been tried, events first.
pub open spec fn scan(events: Seq<EdrEvent>, rules: Seq<EdrRule>, config: &EdrConfig, e: nat, r: nat) -> Seq<(int, int)>
    decreases e, r,
{
    if r == 0 {
        if e == 0 {
            Seq::empty()
        } else {
            scan(events, rules, config, (e - 1) as nat, rules.len())
        }
    } else {
        scan_step(events, rules, config, scan(events, rules, config, e, (r - 1) as nat), e as int, r - 1)
    }
}

/// The (event, rule) pairs reported for all events.
pub open spec fn detections(events: Seq<EdrEvent>, rules: Seq<EdrRule>, config: &EdrConfig) -> Seq<(int, int)> {
    scan(events, rules, config, events.len(), 0)
}

proof fn lemma_capped_scan_stable(
    events: Seq<EdrEvent>,
    rules: Seq<EdrRule>,
    config: &EdrConfig,
    e: nat,
    r: nat,
    e2: nat,
    r2: nat,
)
    requires
        r <= rules.len(),
        r2 <= rules.len(),
        e < e2 || (e == e2 && r <= r2),
        is_capped(scan(events, rules, config, e, r), config.max_detections_per_cycle),
    ensures
        scan(events, rules, config, e2, r2) == scan(events, rules, config, e, r),
    decreases e2, r2,
{
    if e == e2 && r == r2 {
    } else if r2 == 0 {
        lemma_capped_scan_stable(events, rules, config, e, r, (e2 - 1) as nat, rules.len());
    } else {
        lemma_capped_scan_stable(events, rules, config, e, r, e2, (r2 - 1) as nat);
    }
}

fn detection_seen(found: &Vec<DetectionSummary>, id: &str) -> (r: bool)
    ensures
        r == exists|k: int| 0 <= k < found@.len() && (#[trigger] found@[k]).detection_id@ == id@,
{
    let mut i: usize = 0;
    while i < found.len()
        invariant
            i <= found@.len(),
            forall|k: int| 0 <= k < i ==> (#[trigger] found@[k]).detection_id@ != id@,
        decreases found.len() - i,
    {
        if str_equal(found[i].detection_id.as_str(), id) {
            return true;
        }
        i = i + 1;
    }
    false
}

/// Tries every rule on every event, events first, and reports each new
/// detection identifier once, stopping when the cap is reached.
pub fn evaluate_rule_set(events: &[EdrEvent], rules: &Vec<EdrRule>, config: &EdrConfig) -> (r: Vec<
    DetectionSummary,
>)
    ensures
        r@.len() == detections(events@, rules@, config).len(),
        forall|k: int|
            0 <= k < r@.len() ==> {
                let p = #[trigger] detections(events@, rules@, config)[k];
                describes(r@[k], rules@[p.1], events@[p.0])
            },
{
    let mut found: Vec<DetectionSummary> = Vec::new();
    let ghost mut pairs: Seq<(int, int)> = Seq::empty();
    let mut e: usize = 0;
    while e < events.len()
        invariant
            e <= events@.len(),
            pairs == scan(events@, rules@, config, e as nat, 0),
            !is_capped(pairs, config.max_detections_per_cycle),
            found@.len() == pairs.len(),
            forall|k: int|
                0 <= k < found@.len() ==> 0 <= (#[trigger] pairs[k]).0 < events@.len() && 0 <= pairs[k].1
                    < rules@.len() && describes(found@[k], rules@[pairs[k].1], events@[pairs[k].0]),
        decreases events.len() - e,
    {
        let event = &events[e];
        let mut r: usize = 0;
        assert(scan(events@, rules@, config, e as nat, 0) == pairs);
        while r < rules.len()
            invariant
                e < events@.len(),
                event == &events@[e as int],
                r <= rules@.len(),
                pairs == scan(events@, rules@, config, e as nat, r as nat),
                !is_capped(pairs, config.max_detections_per_cycle),
                found@.len() == pairs.len(),
                forall|k: int|
                    0 <= k < found@.len() ==> 0 <= (#[trigger] pairs[k]).0 < events@.len() && 0
                        <= pairs[k].1 < rules@.len() && describes(
                        found@[k],
                        rules@[pairs[k].1],
                        events@[pairs[k].0],
                    ),
            decreases rules.len() - r,
        {
            let rule = &rules[r];
            let ghost next = scan(events@, rules@, config, e as nat, (r + 1) as nat);
            assert(next == scan_step(events@, rules@, config, pairs, e as int, r as int));
            if rule.matcher.matches(event, config) {
                let detection_id = String::from_str("det-").concat(rule.id.as_str()).concat("-").concat(
                    event.event_id.as_str(),
                );
                assert(detection_id@ == key_of(events@, rules@, (e as int, r as int)));
                let seen = detection_seen(&found, detection_id.as_str());
                proof {
                    if seen {
                        let k = choose|k: int| 0 <= k < found@.len() && (#[trigger] found@[k]).detection_id@ == detection_id@;
                        assert(key_of(events@, rules@, pairs[k]) == detection_id@);
                    } else {
                        assert forall|k: int| 0 <= k < pairs.len() implies key_of(events@, rules@, #[trigger] pairs[k])
                            != detection_id@ by {
                            assert(found@[k].detection_id@ != detection_id@);
                        }
                    }
                }
                if !seen {
                    let summary = DetectionSummary {
                        detection_id,
                        severity: rule.severity,
                        rule_id: rule.id.clone(),
                        title: rule.title.clone(),
                        description: rule.description.clone(),
                        event_id: event.event_id.clone(),
                        confidence: calculate_confidence(rule, event),
                    };
                    found.push(summary);
                    proof {
                        pairs = pairs.push((e as int, r as int));
                    }
                    assert(pairs == next);
                    if found.len() >= config.max_detections_per_cycle {
                        proof {
                            lemma_capped_scan_stable(
                                events@,
                                rules@,
                                config,
                                e as nat,
                                (r + 1) as nat,
                                events@.len(),
                                0,
                            );
                        }
                        return found;
                    }
                }
            }
            proof {
                pairs = next;
            }
            r = r + 1;
        }
        assert(scan(events@, rules@, config, (e + 1) as nat, 0) == pairs);
        e = e + 1;
    }
    found
}

/// The four built-in rules, in the order they are tried.
pub open spec fn standard_rules(rules: Seq<EdrRule>, config: &EdrConfig) -> bool {
    &&& rules.len() == 4
    &&& rules[0].id@ == "EDR-PSH-ENC"@
    &&& rules[0].title@ == "Encoded PowerShell invocation"@
    &&& rules[0].description@
        == "Process command line includes encoded PowerShell flags indicative of obfuscation."@
    &&& rules[0].severity == 8
    &&& rules[0].matcher matches RuleMatcher::ProcessCommandContains(tokens) && names_of(tokens@) == seq![
        "powershell"@,
        "-enc"@,
        "-encodedcommand"@,
    ]
    &&& rules[1].id@ == "EDR-TEMP-UNSIGNED"@
    &&& rules[1].title@ == "Unsigned execution from temporary directory"@
    &&& rules[1].description@ == "Unsigned binary launched from common temporary locations."@
    &&& rules[1].severity == 7
    &&& rules[1].matcher matches RuleMatcher::UnsignedExecutionFromDirs(dirs) && names_of(dirs@) == seq![
        "c:/windows/temp"@,
        "c:/users"@,
        "/tmp"@,
        "/var/tmp"@,
    ]
    &&& rules[2].id@ == "EDR-SUSP-PORT"@
    &&& rules[2].title@ == "Outbound connection to suspicious port"@
    &&& rules[2].description@
        == "Network connection targeting ports commonly abused for remote access or C2."@
    &&& rules[2].severity == 6
    &&& rules[2].matcher matches RuleMatcher::NetworkPortIn(ports) && ports@ == config.suspicious_ports@
    &&& rules[3].id@ == "EDR-SENSITIVE-WRITE"@
    &&& rules[3].title@ == "Sensitive path file write"@
    &&& rules[3].description@ == "Process writing to system-sensitive directories."@
    &&& rules[3].severity == 5
    &&& rules[3].matcher is FileWriteToSensitiveDirs
}

fn copy_ports(ports: &Vec<u16>) -> (r: Vec<u16>)
    ensures
        r@ == ports@,
{
    let mut out: Vec<u16> = Vec::new();
    let mut i: usize = 0;
    while i < ports.len()
        invariant
            i <= ports@.len(),
            out@ == ports@.subrange(0, i as int),
        decreases ports.len() - i,
    {
        out.push(ports[i]);
        i = i + 1;
        assert(out@ =~= ports@.subrange(0, i as int));
    }
    assert(ports@.subrange(0, ports@.len() as int) =~= ports@);
    out
}

fn build_rules(config: &EdrConfig) -> (r: Vec<EdrRule>)
    ensures
        standard_rules(r@, config),
{
    let mut rules: Vec<EdrRule> = Vec::new();
    let tokens = vec![
        String::from_str("powershell"),
        String::from_str("-enc"),
        String::from_str("-encodedcommand"),
    ];
    assert(names_of(tokens@) =~= seq!["powershell"@, "-enc"@, "-encodedcommand"@]);
    rules.push(
        EdrRule {
            id: String::from_str("EDR-PSH-ENC"),
            title: String::from_str("Encoded PowerShell invocation"),
            description: String::from_str(
                "Process command line includes encoded PowerShell flags indicative of obfuscation.",
            ),
            severity: 8,
            matcher: RuleMatcher::ProcessCommandContains(tokens),
        },
    );
    let dirs = vec![
        String::from_str("c:/windows/temp"),
        String::from_str("c:/users"),
        String::from_str("/tmp"),
        String::from_str("/var/tmp"),
    ];
    assert(names_of(dirs@) =~= seq!["c:/windows/temp"@, "c:/users"@, "/tmp"@, "/var/tmp"@]);
    rules.push(
        EdrRule {
            id: String::from_str("EDR-TEMP-UNSIGNED"),
            title: String::from_str("Unsigned execution from temporary directory"),
            description: String::from_str("Unsigned binary launched from common temporary locations."),
            severity: 7,
            matcher: RuleMatcher::UnsignedExecutionFromDirs(dirs),
        },
    );
    rules.push(
        EdrRule {
            id: String::from_str("EDR-SUSP-PORT"),
            title: String::from_str("Outbound connection to suspicious port"),
            description: String::from_str(
                "Network connection targeting ports commonly abused for remote access or C2.",
            ),
            severity: 6,
            matcher: RuleMatcher::NetworkPortIn(copy_ports(&config.suspicious_ports)),
        },
    );
    rules.push(
        EdrRule {
            id: String::from_str("EDR-SENSITIVE-WRITE"),
            title: String::from_str("Sensitive path file write"),
            description: String::from_str("Process writing to system-sensitive directories."),
            severity: 5,
            matcher: RuleMatcher::FileWriteToSensitiveDirs,
        },
    );
    rules
}

/// Default cap on detections per evaluation.
pub const DEFAULT_MAX_DETECTIONS: usize = 64;

impl EdrConfig {
    pub open spec fn is_default(&self) -> bool {
        &&& self.max_detections_per_cycle == DEFAULT_MAX_DETECTIONS
        &&& self.suspicious_ports@ == seq![4444u16, 1337, 3389, 5985, 5986]
        &&& names_of(self.sensitive_paths@) == seq![
            "c:/windows/system32"@,
            "c:/windows/temp"@,
            "/etc"@,
            "/usr/bin"@,
            "/tmp"@,
        ]
    }

    /// The settings used when none are configured.
    pub fn default_config() -> (r: Self)
        ensures
            r.is_default(),
    {
        let r = EdrConfig {
            max_detections_per_cycle: DEFAULT_MAX_DETECTIONS,
            suspicious_ports: vec![4444, 1337, 3389, 5985, 5986],
            sensitive_paths: vec![
                String::from_str("c:/windows/system32"),
                String::from_str("c:/windows/temp"),
                String::from_str("/etc"),
                String::from_str("/usr/bin"),
                String::from_str("/tmp"),
            ],
        };
        assert(r.suspicious_ports@ =~= seq![4444u16, 1337, 3389, 5985, 5986]);
        assert(names_of(r.sensitive_paths@) =~= seq![
            "c:/windows/system32"@,
            "c:/windows/temp"@,
            "/etc"@,
            "/usr/bin"@,
            "/tmp"@,
        ]);
        r
    }
}

/// The detections of the built-in rules on `events`: every rule on every
/// event, events first, each detection identifier once, up to the cap.
pub fn evaluate_rules_for_events(events: &[EdrEvent], config: &EdrConfig) -> (r: Vec<DetectionSummary>)
    ensures
        exists|rules: Seq<EdrRule>|
            #[trigger] standard_rules(rules, config) && r@.len() == detections(events@, rules, config).len()
                && forall|k: int|
                0 <= k < r@.len() ==> {
                    let p = #[trigger] detections(events@, rules, config)[k];
                    describes(r@[k], rules[p.1], events@[p.0])
                },
{
    let rules = build_rules(config);
    let r = evaluate_rule_set(events, &rules, config);
    assert(standard_rules(rules@, config));
    r
}

/// Three recorded events: an encoded PowerShell start, a connection to port
/// 4444 and a write to the hosts file.
pub open spec fn is_sample(events: Seq<EdrEvent>) -> bool {
    &&& events.len() == 3
    &&& events[0].event_id@ == "evt-psh-001"@
    &&& events[1].event_id@ == "evt-net-002"@
    &&& events[2].event_id@ == "evt-file-003"@
}

fn sample_events() -> (r: Vec<EdrEvent>)
    ensures
        is_sample(r@),
{
    vec![
        EdrEvent {
            event_id: String::from_str("evt-psh-001"),
            timestamp_unix_ms: 1_700_000_000_000,
            kind: EdrEventKind::ProcessStart {
                image_path: String::from_str("C:\\Windows\\System32\\WindowsPowerShell\\v1.0\\powershell.exe"),
                command_line: String::from_str("powershell.exe -NoP -Enc aGVsbG8="),
                parent_image: String::from_str("C:\\Windows\\explorer.exe"),
                is_signed: true,
            },
        },
        EdrEvent {
            event_id: String::from_str("evt-net-002"),
            timestamp_unix_ms: 1_700_000_010_000,
            kind: EdrEventKind::NetworkConnection {
                destination_ip: String::from_str("203.0.113.10"),
                destination_port: 4444,
                protocol: String::from_str("tcp"),
                process_name: String::from_str("svchost.exe"),
            },
        },
        EdrEvent {
            event_id: String::from_str("evt-file-003"),
            timestamp_unix_ms: 1_700_000_020_000,
            kind: EdrEventKind::FileWrite {
                path: String::from_str("C:\\Windows\\System32\\drivers\\etc\\hosts"),
                size_bytes: 512,
                originating_process: String::from_str("notepad.exe"),
            },
        },
    ]
}

/// The built-in rules under the default settings, on the recorded sample
/// events.
pub fn evaluate_rules() -> (r: Vec<DetectionSummary>)
    ensures
        exists|events: Seq<EdrEvent>, rules: Seq<EdrRule>, config: EdrConfig|
            #[trigger] is_sample(events) && config.is_default() && #[trigger] standard_rules(rules, &config)
                && r@.len() == detections(events, rules, &config).len() && forall|k: int|
                0 <= k < r@.len() ==> {
                    let p = #[trigger] detections(events, rules, &config)[k];
                    describes(r@[k], rules[p.1], events[p.0])
                },
{
    let events = sample_events();
    let config = EdrConfig::default_config();
    evaluate_rules_for_events(events.as_slice(), &config)
}

} // verus!
