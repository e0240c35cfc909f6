use vstd::prelude::*;

verus! {

/// All boolean flags that contribute to (or reduce) a threat score.
#[derive(Debug, Clone, Copy)]
pub struct ScoreFactors {
    /// File hash found in a malware feed (+90)
    pub hash_in_feed: bool,
    /// YARA rule with high-confidence match (+80)
    pub yara_match_strong: bool,
    /// Network connection to IOC-listed IP or domain (+70)
    pub connection_to_ioc: bool,
    /// Executable launched from a TEMP directory (+20)
    pub exec_from_temp: bool,
    /// Binary has no Authenticode signature (+15)
    pub no_digital_signature: bool,
    /// Parent process is a known suspicious process (+20)
    pub suspicious_parent: bool,
    /// LOLBin executing with suspicious arguments (+25)
    pub lolbin_suspicious: bool,
    /// Mass file modification detected (potential ransomware) (+40)
    pub mass_file_modification: bool,
    /// Persistence via Autorun registry key added (+35)
    pub autorun_persistence: bool,
    /// Repeated beaconing to same host detected (+30)
    pub beaconing: bool,
    /// File is signed by a trusted CA (-30)
    pub valid_signature_trusted: bool,
    /// Domain/IP present in MISP allowlist (benign) (-20)
    pub misp_allowlist: bool,
    /// YARA rule with lower-confidence match (+40)
    pub yara_match_weak: bool,
    /// Executable launched from AppData (+15)
    pub exec_from_appdata: bool,
    /// Connection to a rarely-used or suspicious port (+20)
    pub rare_port_connection: bool,
    /// Path ends in a double extension such as `.pdf.exe` (+30)
    pub double_extension: bool,
    /// Path holds Unicode direction-control characters (+25)
    pub suspicious_unicode_path: bool,
    /// File carries an extension ransomware gives encrypted files (+50)
    pub ransomware_extension: bool,
    /// File is named like a ransom note (+50)
    pub ransom_note: bool,
    /// Shadow copies deleted with `vssadmin delete shadows` (+70)
    pub shadow_copy_deletion: bool,
}

impl ScoreFactors {
    /// The factor set with every flag cleared.
    pub open spec fn none() -> ScoreFactors {
        ScoreFactors {
            hash_in_feed: false,
            yara_match_strong: false,
            connection_to_ioc: false,
            exec_from_temp: false,
            no_digital_signature: false,
            suspicious_parent: false,
            lolbin_suspicious: false,
            mass_file_modification: false,
            autorun_persistence: false,
            beaconing: false,
            valid_signature_trusted: false,
            misp_allowlist: false,
            yara_match_weak: false,
            exec_from_appdata: false,
            rare_port_connection: false,
            double_extension: false,
            suspicious_unicode_path: false,
            ransomware_extension: false,
            ransom_note: false,
            shadow_copy_deletion: false,
        }
    }
}

impl Default for ScoreFactors {
    fn default() -> (r: ScoreFactors)
        ensures
            r == ScoreFactors::none(),
    {
        ScoreFactors {
            hash_in_feed: false,
            yara_match_strong: false,
            connection_to_ioc: false,
            exec_from_temp: false,
            no_digital_signature: false,
            suspicious_parent: false,
            lolbin_suspicious: false,
            mass_file_modification: false,
            autorun_persistence: false,
            beaconing: false,
            valid_signature_trusted: false,
            misp_allowlist: false,
            yara_match_weak: false,
            exec_from_appdata: false,
            rare_port_connection: false,
            double_extension: false,
            suspicious_unicode_path: false,
            ransomware_extension: false,
            ransom_note: false,
            shadow_copy_deletion: false,
        }
    }
}

/// Contribution of one flag: `w` when the flag is set, else nothing.
#[verifier::opaque]
pub open spec fn weight(flag: bool, w: int) -> int {
    if flag { w } else { 0 }
}

/// Weights of the flags raised by file content and reputation.
pub open spec fn content_points(f: ScoreFactors) -> int {
    weight(f.hash_in_feed, 90) + weight(f.yara_match_strong, 80) + weight(f.connection_to_ioc, 70)
        + weight(f.exec_from_temp, 20) + weight(f.no_digital_signature, 15)
}

/// Weights of the flags raised by behaviour.
pub open spec fn behaviour_points(f: ScoreFactors) -> int {
    weight(f.suspicious_parent, 20) + weight(f.lolbin_suspicious, 25)
        + weight(f.mass_file_modification, 40) + weight(f.autorun_persistence, 35)
        + weight(f.beaconing, 30)
}

/// Weights of the mitigating flags and of the remaining aggravating ones.
pub open spec fn other_points(f: ScoreFactors) -> int {
    weight(f.valid_signature_trusted, -30) + weight(f.misp_allowlist, -20)
        + weight(f.yara_match_weak, 40) + weight(f.exec_from_appdata, 15)
        + weight(f.rare_port_connection, 20)
}

/// Weights of the flags raised by the shape of a path.
pub open spec fn path_points(f: ScoreFactors) -> int {
    weight(f.double_extension, 30) + weight(f.suspicious_unicode_path, 25)
}

/// Weights of the flags raised by signs of ransomware.
pub open spec fn ransomware_points(f: ScoreFactors) -> int {
    weight(f.ransomware_extension, 50) + weight(f.ransom_note, 50) + weight(
        f.shadow_copy_deletion,
        70,
    )
}

/// Sum of the weights of all set flags, before clamping.
pub open spec fn raw_score(f: ScoreFactors) -> int {
    content_points(f) + behaviour_points(f) + other_points(f) + path_points(f)
        + ransomware_points(f)
}

/// `x` limited to the range 0..=100.
pub open spec fn clamp_score(x: int) -> int {
    if x < 0 {
        0
    } else if x > 100 {
        100
    } else {
        x
    }
}

/// The score of a factor set: the sum of its weights, clamped to 0..=100.
pub open spec fn score_of(f: ScoreFactors) -> int {
    clamp_score(raw_score(f))
}

/// The contribution of one flag to the score.
fn weight_of(flag: bool, w: i32) -> (r: i32)
    requires
        -30 <= w <= 90,
    ensures
        r == weight(flag, w as int),
        -30 <= r <= 90,
{
    reveal(weight);
    if flag {
        w
    } else {
        0
    }
}

fn content_part(f: &ScoreFactors) -> (r: i32)
    ensures
        r == content_points(*f),
        -150 <= r <= 450,
{
    weight_of(f.hash_in_feed, 90) + weight_of(f.yara_match_strong, 80) + weight_of(
        f.connection_to_ioc,
        70,
    ) + weight_of(f.exec_from_temp, 20) + weight_of(f.no_digital_signature, 15)
}

fn behaviour_part(f: &ScoreFactors) -> (r: i32)
    ensures
        r == behaviour_points(*f),
        -150 <= r <= 450,
{
    weight_of(f.suspicious_parent, 20) + weight_of(f.lolbin_suspicious, 25) + weight_of(
        f.mass_file_modification,
        40,
    ) + weight_of(f.autorun_persistence, 35) + weight_of(f.beaconing, 30)
}

fn other_part(f: &ScoreFactors) -> (r: i32)
    ensures
        r == other_points(*f),
        -150 <= r <= 450,
{
    weight_of(f.valid_signature_trusted, -30) + weight_of(f.misp_allowlist, -20) + weight_of(
        f.yara_match_weak,
        40,
    ) + weight_of(f.exec_from_appdata, 15) + weight_of(f.rare_port_connection, 20)
}

fn path_part(f: &ScoreFactors) -> (r: i32)
    ensures
        r == path_points(*f),
        0 <= r <= 55,
{
    reveal(weight);
    weight_of(f.double_extension, 30) + weight_of(f.suspicious_unicode_path, 25)
}

fn ransomware_part(f: &ScoreFactors) -> (r: i32)
    ensures
        r == ransomware_points(*f),
        0 <= r <= 170,
{
    reveal(weight);
    weight_of(f.ransomware_extension, 50) + weight_of(f.ransom_note, 50) + weight_of(
        f.shadow_copy_deletion,
        70,
    )
}

/// Compute a 0-100 risk score from a set of boolean factors.
pub fn calculate_score(factors: &ScoreFactors) -> (r: u8)
    ensures
        r as int == score_of(*factors),
        r <= 100,
{
    let score: i32 = content_part(factors) + behaviour_part(factors) + other_part(factors)
        + path_part(factors) + ransomware_part(factors);
    if score < 0 {
        0
    } else if score > 100 {
        100
    } else {
        score as u8
    }
}

/// Qualitative risk level derived from a numeric score.
#[derive(Debug, Clone, Copy, PartialEq, Eq, Structural)]
pub enum RiskLevel {
    /// Score 0-29: no significant indicators
    Clean,
    /// Score 30-59: worth investigating
    Suspicious,
    /// Score 60-79: likely malicious
    High,
    /// Score 80-100: confirmed threat
    Critical,
}

/// The level that a score falls into.
pub open spec fn level_of(score: int) -> RiskLevel {
    if score <= 29 {
        RiskLevel::Clean
    } else if score <= 59 {
        RiskLevel::Suspicious
    } else if score <= 79 {
        RiskLevel::High
    } else {
        RiskLevel::Critical
    }
}

/// Position of a level in the order Clean < Suspicious < High < Critical.
pub open spec fn level_rank(l: RiskLevel) -> int {
    match l {
        RiskLevel::Clean => 0,
        RiskLevel::Suspicious => 1,
        RiskLevel::High => 2,
        RiskLevel::Critical => 3,
    }
}

/// Map a numeric score to the corresponding risk level.
pub fn risk_level(score: u8) -> (r: RiskLevel)
    ensures
        r == level_of(score as int),
{
    if score <= 29 {
        RiskLevel::Clean
    } else if score <= 59 {
        RiskLevel::Suspicious
    } else if score <= 79 {
        RiskLevel::High
    } else {
        RiskLevel::Critical
    }
}

/// `g` carries every aggravating flag of `f` and no mitigating flag that `f` lacks.
pub open spec fn at_least_as_suspicious(f: ScoreFactors, g: ScoreFactors) -> bool {
    &&& f.hash_in_feed ==> g.hash_in_feed
    &&& f.yara_match_strong ==> g.yara_match_strong
    &&& f.connection_to_ioc ==> g.connection_to_ioc
    &&& f.exec_from_temp ==> g.exec_from_temp
    &&& f.no_digital_signature ==> g.no_digital_signature
    &&& f.suspicious_parent ==> g.suspicious_parent
    &&& f.lolbin_suspicious ==> g.lolbin_suspicious
    &&& f.mass_file_modification ==> g.mass_file_modification
    &&& f.autorun_persistence ==> g.autorun_persistence
    &&& f.beaconing ==> g.beaconing
    &&& f.yara_match_weak ==> g.yara_match_weak
    &&& f.exec_from_appdata ==> g.exec_from_appdata
    &&& f.rare_port_connection ==> g.rare_port_connection
    &&& f.double_extension ==> g.double_extension
    &&& f.suspicious_unicode_path ==> g.suspicious_unicode_path
    &&& f.ransomware_extension ==> g.ransomware_extension
    &&& f.ransom_note ==> g.ransom_note
    &&& f.shadow_copy_deletion ==> g.shadow_copy_deletion
    &&& g.valid_signature_trusted ==> f.valid_signature_trusted
    &&& g.misp_allowlist ==> f.misp_allowlist
}

/// Every score lies between 0 and 100, and the empty factor set scores 0.
pub proof fn lemma_score_bounds(f: ScoreFactors)
    ensures
        0 <= score_of(f) <= 100,
        score_of(ScoreFactors::none()) == 0,
{
    reveal(weight);
}

/// Raising an aggravating flag or dropping a mitigating one never lowers the
/// score, nor the risk level.
pub proof fn lemma_score_monotone(f: ScoreFactors, g: ScoreFactors)
    requires
        at_least_as_suspicious(f, g),
    ensures
        score_of(f) <= score_of(g),
        level_rank(level_of(score_of(f))) <= level_rank(level_of(score_of(g))),
{
    assert(raw_score(f) <= raw_score(g)) by {
        reveal(weight);
        assert(content_points(f) <= content_points(g));
        assert(behaviour_points(f) <= behaviour_points(g));
        assert(other_points(f) <= other_points(g));
        assert(path_points(f) <= path_points(g));
        assert(ransomware_points(f) <= ransomware_points(g));
    }
    lemma_level_monotone(score_of(f), score_of(g));
}

/// A higher score never maps to a lower risk level.
pub proof fn lemma_level_monotone(a: int, b: int)
    requires
        a <= b,
    ensures
        level_rank(level_of(a)) <= level_rank(level_of(b)),
{
}

/// A trusted signature takes 30 points off the unclamped score: with every other
/// flag equal, the score with it is never above the score without it, and
/// strictly below whenever the score without it lies between 1 and 100 unclamped.
pub proof fn lemma_trusted_signature_reduces(f: ScoreFactors)
    requires
        !f.valid_signature_trusted,
    ensures
        score_of(ScoreFactors { valid_signature_trusted: true, ..f }) <= score_of(f),
        0 < raw_score(f) <= 100 ==> score_of(ScoreFactors { valid_signature_trusted: true, ..f })
            < score_of(f),
{
    reveal(weight);
}

/// A file whose hash is in a malware feed is Critical unless an allowlist or a
/// trusted signature mitigates it.
pub proof fn lemma_hash_in_feed_is_critical(f: ScoreFactors)
    requires
        f.hash_in_feed,
        !f.valid_signature_trusted,
        !f.misp_allowlist,
    ensures
        score_of(f) >= 90,
        level_of(score_of(f)) == RiskLevel::Critical,
{
    reveal(weight);
}

/// Each flag weighs what the scoring table gives it, whatever the other flags
/// are: setting it adds exactly its weight to the unclamped score (a mitigating
/// flag adds a negative weight). These are the content flags.
pub proof fn lemma_content_weights(f: ScoreFactors)
    ensures
        raw_score(ScoreFactors { hash_in_feed: true, ..f }) == raw_score(ScoreFactors { hash_in_feed: false, ..f }) + (90),
        raw_score(ScoreFactors { yara_match_strong: true, ..f }) == raw_score(ScoreFactors { yara_match_strong: false, ..f }) + (80),
        raw_score(ScoreFactors { connection_to_ioc: true, ..f }) == raw_score(ScoreFactors { connection_to_ioc: false, ..f }) + (70),
        raw_score(ScoreFactors { exec_from_temp: true, ..f }) == raw_score(ScoreFactors { exec_from_temp: false, ..f }) + (20),
        raw_score(ScoreFactors { no_digital_signature: true, ..f }) == raw_score(ScoreFactors { no_digital_signature: false, ..f }) + (15),
{
    reveal(weight);
}

/// Each flag weighs what the scoring table gives it, whatever the other flags
/// are: setting it adds exactly its weight to the unclamped score (a mitigating
/// flag adds a negative weight). These are the behaviour flags.
pub proof fn lemma_behaviour_weights(f: ScoreFactors)
    ensures
        raw_score(ScoreFactors { suspicious_parent: true, ..f }) == raw_score(ScoreFactors { suspicious_parent: false, ..f }) + (20),
        raw_score(ScoreFactors { lolbin_suspicious: true, ..f }) == raw_score(ScoreFactors { lolbin_suspicious: false, ..f }) + (25),
        raw_score(ScoreFactors { mass_file_modification: true, ..f }) == raw_score(ScoreFactors { mass_file_modification: false, ..f }) + (40),
        raw_score(ScoreFactors { autorun_persistence: true, ..f }) == raw_score(ScoreFactors { autorun_persistence: false, ..f }) + (35),
        raw_score(ScoreFactors { beaconing: true, ..f }) == raw_score(ScoreFactors { beaconing: false, ..f }) + (30),
{
    reveal(weight);
}

/// Each flag weighs what the scoring table gives it, whatever the other flags
/// are: setting it adds exactly its weight to the unclamped score (a mitigating
/// flag adds a negative weight). These are the other flags.
pub proof fn lemma_other_weights(f: ScoreFactors)
    ensures
        raw_score(ScoreFactors { valid_signature_trusted: true, ..f }) == raw_score(ScoreFactors { valid_signature_trusted: false, ..f }) + (-30),
        raw_score(ScoreFactors { misp_allowlist: true, ..f }) == raw_score(ScoreFactors { misp_allowlist: false, ..f }) + (-20),
        raw_score(ScoreFactors { yara_match_weak: true, ..f }) == raw_score(ScoreFactors { yara_match_weak: false, ..f }) + (40),
        raw_score(ScoreFactors { exec_from_appdata: true, ..f }) == raw_score(ScoreFactors { exec_from_appdata: false, ..f }) + (15),
        raw_score(ScoreFactors { rare_port_connection: true, ..f }) == raw_score(ScoreFactors { rare_port_connection: false, ..f }) + (20),
{
    reveal(weight);
}

/// Each flag weighs what the scoring table gives it, whatever the other flags
/// are: setting it adds exactly its weight to the unclamped score (a mitigating
/// flag adds a negative weight). These are the path and ransomware flags.
pub proof fn lemma_path_and_ransomware_weights(f: ScoreFactors)
    ensures
        raw_score(ScoreFactors { double_extension: true, ..f }) == raw_score(ScoreFactors { double_extension: false, ..f }) + (30),
        raw_score(ScoreFactors { suspicious_unicode_path: true, ..f }) == raw_score(ScoreFactors { suspicious_unicode_path: false, ..f }) + (25),
        raw_score(ScoreFactors { ransomware_extension: true, ..f }) == raw_score(ScoreFactors { ransomware_extension: false, ..f }) + (50),
        raw_score(ScoreFactors { ransom_note: true, ..f }) == raw_score(ScoreFactors { ransom_note: false, ..f }) + (50),
        raw_score(ScoreFactors { shadow_copy_deletion: true, ..f }) == raw_score(ScoreFactors { shadow_copy_deletion: false, ..f }) + (70),
{
    reveal(weight);
}

/// The risk bands: 0..=29 is clean, 30..=59 suspicious, 60..=79 high risk and
/// 80..=100 critical.
pub proof fn lemma_risk_bands(s: int)
    ensures
        0 <= s <= 29 ==> level_of(s) == RiskLevel::Clean,
        30 <= s <= 59 ==> level_of(s) == RiskLevel::Suspicious,
        60 <= s <= 79 ==> level_of(s) == RiskLevel::High,
        80 <= s <= 100 ==> level_of(s) == RiskLevel::Critical,
{
}

} // verus!
