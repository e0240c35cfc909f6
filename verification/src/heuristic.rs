//! Static heuristics on an executable's path, command line and parent process.
use vstd::prelude::*;
use crate::scoring::ScoreFactors;
use crate::text::{
    ascii_fold, ascii_fold_opt, chars_of, is_sub_at, concat, has_sub, has_suffix, str_ends_with, list_contains, lowercase, str_contains, str_eq, str_lowercase, str_views,
    views,
};
use crate::winpath::{extension, extension_of, file_name, file_name_of, lemma_file_name_ignores_ascii_case};

verus! {

/// LOLBins (Living off the Land Binaries) that attackers abuse.
pub open spec fn lolbin_names() -> Seq<Seq<char>> {
    seq![
        "powershell.exe"@, "pwsh.exe"@, "cmd.exe"@, "wscript.exe"@, "cscript.exe"@,
        "mshta.exe"@, "rundll32.exe"@, "regsvr32.exe"@, "certutil.exe"@, "bitsadmin.exe"@,
        "wmic.exe"@, "msiexec.exe"@, "regasm.exe"@, "regsvcs.exe"@, "installutil.exe"@,
        "msbuild.exe"@, "cmstp.exe"@, "odbcconf.exe"@, "appsyncpublishing.exe"@, "bginfo.exe"@,
        "wab.exe"@, "xwizard.exe"@, "ftp.exe"@, "nltest.exe"@, "replace.exe"@, "winrm.cmd"@,
        "pcalua.exe"@, "squirrel.exe"@,
    ]
}

/// The LOLBin names, in the order `lolbin_names` lists them.
pub fn lolbins() -> (r: Vec<&'static str>)
    ensures
        str_views(r@) == lolbin_names(),
{
    let r = vec![
        "powershell.exe", "pwsh.exe", "cmd.exe", "wscript.exe", "cscript.exe", "mshta.exe",
        "rundll32.exe", "regsvr32.exe", "certutil.exe", "bitsadmin.exe", "wmic.exe",
        "msiexec.exe", "regasm.exe", "regsvcs.exe", "installutil.exe", "msbuild.exe",
        "cmstp.exe", "odbcconf.exe", "appsyncpublishing.exe", "bginfo.exe", "wab.exe",
        "xwizard.exe", "ftp.exe", "nltest.exe", "replace.exe", "winrm.cmd", "pcalua.exe",
        "squirrel.exe",
    ];
    assert(str_views(r@) =~= lolbin_names());
    r
}

/// File extensions often used to disguise malware.
pub open spec fn suspicious_extension_names() -> Seq<Seq<char>> {
    seq![
        ".scr"@, ".pif"@, ".com"@, ".bat"@, ".cmd"@, ".vbs"@, ".vbe"@, ".js"@, ".jse"@,
        ".wsf"@, ".wsh"@, ".ps1"@, ".psm1"@, ".psd1"@, ".hta"@, ".jar"@, ".lnk"@,
    ]
}

/// The suspicious extensions, in the order `suspicious_extension_names` lists them.
pub fn suspicious_extensions() -> (r: Vec<&'static str>)
    ensures
        str_views(r@) == suspicious_extension_names(),
{
    let r = vec![
        ".scr", ".pif", ".com", ".bat", ".cmd", ".vbs", ".vbe", ".js", ".jse", ".wsf", ".wsh",
        ".ps1", ".psm1", ".psd1", ".hta", ".jar", ".lnk",
    ];
    assert(str_views(r@) =~= suspicious_extension_names());
    r
}

/// Office applications whose shell children are suspicious.
pub open spec fn office_parent_names() -> Seq<Seq<char>> {
    seq!["winword.exe"@, "excel.exe"@, "powerpnt.exe"@, "outlook.exe"@, "onenote.exe"@]
}

fn office_parents() -> (r: Vec<&'static str>)
    ensures
        str_views(r@) == office_parent_names(),
{
    let r = vec!["winword.exe", "excel.exe", "powerpnt.exe", "outlook.exe", "onenote.exe"];
    assert(str_views(r@) =~= office_parent_names());
    r
}

/// Browsers whose LOLBin children are suspicious.
pub open spec fn browser_parent_names() -> Seq<Seq<char>> {
    seq!["chrome.exe"@, "firefox.exe"@, "msedge.exe"@, "iexplore.exe"@, "opera.exe"@]
}

fn browser_parents() -> (r: Vec<&'static str>)
    ensures
        str_views(r@) == browser_parent_names(),
{
    let r = vec!["chrome.exe", "firefox.exe", "msedge.exe", "iexplore.exe", "opera.exe"];
    assert(str_views(r@) =~= browser_parent_names());
    r
}

/// Case-insensitive double extension such as `report.pdf.exe` at the end of a path.
pub const DOUBLE_EXTENSION_PATTERN: &'static str =
    "(?i)\\.(pdf|doc|docx|xls|xlsx|jpg|png|txt)\\.(exe|scr|bat|cmd|vbs|js|ps1)$";

/// Suspicious PowerShell arguments.
pub const PS_SUSPICIOUS_PATTERN: &'static str =
    "(?i)(-enc|-encodedcommand|iex|invoke-expression|downloadstring|net\\.webclient|bypass|hidden|noprofile)";

/// What compiling `pattern` with `regex::Regex::new` and asking `is_match` on
/// `haystack` gives: `None` when the pattern does not compile.
pub uninterp spec fn regex_match(pattern: Seq<char>, haystack: Seq<char>) -> Option<bool>;

/// `regex::Regex::new(pattern)` then `Regex::is_match(haystack)`; the result is
/// named `regex_match` (nothing is stated of which inputs match).
#[verifier::external_body]
fn regex_is_match(pattern: &str, haystack: &str) -> (r: Option<bool>)
    ensures
        r == regex_match(pattern@, haystack@),
{
    match regex::Regex::new(pattern) {
        Ok(re) => Some(re.is_match(haystack)),
        Err(_) => None,
    }
}

/// Flags and score factors produced by the heuristics.
#[derive(Debug, Clone)]
pub struct HeuristicResult {
    pub flags: Vec<String>,
    pub score_factors: ScoreFactors,
}

/// The one-element sequence holding `f` when `c` holds, else the empty one.
pub open spec fn flag_if(c: bool, f: Seq<char>) -> Seq<Seq<char>> {
    if c {
        seq![f]
    } else {
        seq![]
    }
}

/// The lowercased path names a temporary directory.
pub open spec fn temp_hint(p: Seq<char>) -> bool {
    has_sub(p, "\\temp\\"@) || has_sub(p, "\\tmp\\"@) || has_sub(p, "%temp%"@) || has_sub(
        p,
        "\\appdata\\local\\temp"@,
    )
}

/// The lowercased path lies under AppData.
pub open spec fn appdata_hint(p: Seq<char>) -> bool {
    has_sub(p, "\\appdata\\roaming\\"@) || has_sub(p, "\\appdata\\local\\"@)
}

/// The lowercased file name is a PowerShell host.
pub open spec fn is_powershell_name(f: Seq<char>) -> bool {
    has_sub(f, "powershell"@) || f == "pwsh.exe"@
}

/// The lowercased file name is a script host.
pub open spec fn is_script_host(f: Seq<char>) -> bool {
    f == "mshta.exe"@ || f == "wscript.exe"@ || f == "cscript.exe"@
}

/// The lowercased command line names a remote URL.
pub open spec fn remote_url(c: Seq<char>) -> bool {
    has_sub(c, "http://"@) || has_sub(c, "https://"@)
}

/// The flag raised by a LOLBin other than a PowerShell host, from its lowercased
/// file name `f` and lowercased command line `c`.
pub open spec fn lolbin_arg_flag(f: Seq<char>, c: Seq<char>, temp: bool) -> Option<Seq<char>> {
    if f == "certutil.exe"@ {
        if has_sub(c, "-urlcache"@) || has_sub(c, "-decode"@) {
            Some("lolbin_certutil_download"@)
        } else {
            None
        }
    } else if is_script_host(f) {
        Some("lolbin_"@ + f)
    } else if f == "rundll32.exe"@ {
        if temp || temp_hint(c) {
            Some("lolbin_rundll32_temp"@)
        } else {
            None
        }
    } else if f == "regsvr32.exe"@ {
        if has_sub(c, "scrobj.dll"@) || remote_url(c) {
            Some("lolbin_regsvr32_remote"@)
        } else {
            None
        }
    } else if f == "bitsadmin.exe"@ {
        if has_sub(c, "/transfer"@) || has_sub(c, "/create"@) || has_sub(c, "/addfile"@) {
            Some("lolbin_bitsadmin_transfer"@)
        } else {
            None
        }
    } else if f == "msiexec.exe"@ {
        if remote_url(c) {
            Some("lolbin_msiexec_remote"@)
        } else {
            None
        }
    } else if f == "cmstp.exe"@ {
        if has_sub(c, ".inf"@) {
            Some("lolbin_cmstp_inf"@)
        } else {
            None
        }
    } else if f == "wmic.exe"@ {
        if has_sub(c, "/node:"@) || has_sub(c, "process call create"@) {
            Some("lolbin_wmic_exec"@)
        } else {
            None
        }
    } else {
        None
    }
}

/// The flag raised by a LOLBin run with suspicious arguments, if any.
/// `f` is the lowercased file name, `cmd` the lowercased command line,
/// `ps` whether the PowerShell pattern matched it, `temp` the temporary-directory hint.
pub open spec fn lolbin_flag(f: Seq<char>, cmd: Option<Seq<char>>, ps: bool, temp: bool) -> Option<
    Seq<char>,
> {
    if lolbin_names().contains(f) && cmd is Some {
        if arg_lolbin(f) {
            lolbin_arg_flag(f, cmd->0, temp)
        } else if is_powershell_name(f) {
            if ps {
                Some("lolbin_ps_suspicious_args"@)
            } else {
                None
            }
        } else {
            None
        }
    } else {
        None
    }
}

/// The LOLBins whose abuse is read from their arguments (or, for rundll32,
/// from where it runs).
pub open spec fn arg_lolbin(f: Seq<char>) -> bool {
    ||| f == "certutil.exe"@
    ||| is_script_host(f)
    ||| f == "rundll32.exe"@
    ||| f == "regsvr32.exe"@
    ||| f == "bitsadmin.exe"@
    ||| f == "msiexec.exe"@
    ||| f == "cmstp.exe"@
    ||| f == "wmic.exe"@
}

/// A Unicode direction-control character (U+202A..U+202E or U+2066..U+2069),
/// used to disguise the true extension of a file name.
pub open spec fn is_bidi_control(c: char) -> bool {
    (0x202A <= (c as u32) <= 0x202E) || (0x2066 <= (c as u32) <= 0x2069)
}

/// The path holds a Unicode direction-control character.
pub open spec fn has_bidi_control(p: Seq<char>) -> bool {
    exists|i: int| 0 <= i < p.len() && #[trigger] is_bidi_control(p[i])
}

/// The sequence holding the optional element.
pub open spec fn opt_seq(o: Option<Seq<char>>) -> Seq<Seq<char>> {
    match o {
        Some(x) => seq![x],
        None => seq![],
    }
}

/// An Office application spawned a shell.
pub open spec fn office_spawn(parent: Seq<char>, f: Seq<char>) -> bool {
    office_parent_names().contains(parent) && (has_sub(f, "powershell"@) || f == "cmd.exe"@ || f
        == "wscript.exe"@ || f == "cscript.exe"@)
}

/// A browser spawned a LOLBin.
pub open spec fn browser_spawn(parent: Seq<char>, f: Seq<char>) -> bool {
    browser_parent_names().contains(parent) && lolbin_names().contains(f)
}

/// Flags raised by the (lowercased) parent process name.
pub open spec fn parent_flags(parent: Option<Seq<char>>, f: Seq<char>) -> Seq<Seq<char>> {
    match parent {
        None => seq![],
        Some(p) => flag_if(office_spawn(p, f), "office_spawned_"@ + f) + flag_if(
            browser_spawn(p, f),
            "browser_spawned_"@ + f,
        ),
    }
}

/// A script-like extension inside a Windows system directory.
pub open spec fn system_dir_script(p: Seq<char>, ext: Seq<char>) -> bool {
    suspicious_extension_names().contains(ext) && (has_sub(p, "\\system32\\"@) || has_sub(
        p,
        "\\syswow64\\"@,
    ))
}

/// Extensions ransomware gives the files it encrypts.
pub open spec fn ransom_extension_names() -> Seq<Seq<char>> {
    seq![".locked"@, ".encrypted"@, ".enc"@, ".crypted"@]
}

/// File names ransom notes are left under.
pub open spec fn ransom_note_names() -> Seq<Seq<char>> {
    seq!["how_to_decrypt.txt"@, "readme_ransomware.html"@]
}

/// The lowercased file name ends in an extension of encrypted files.
pub open spec fn ransom_extension(f: Seq<char>) -> bool {
    exists|i: int| 0 <= i < 4 && #[trigger] has_suffix(f, ransom_extension_names()[i])
}

/// The lowercased command line deletes the shadow copies with `vssadmin`.
pub open spec fn shadow_delete(f: Seq<char>, cmd: Option<Seq<char>>) -> bool {
    f == "vssadmin.exe"@ && (cmd matches Some(c) && has_sub(c, "delete shadows"@))
}

/// The flags the heuristics raise, in order, from the lowercased path `p`, the
/// lowercased file name `f`, the lowercased dotted extension `ext` (empty when
/// there is none), the lowercased command line, the PowerShell pattern result,
/// the double-extension pattern result and the lowercased parent name.
pub open spec fn heuristic_flags(
    p: Seq<char>,
    f: Seq<char>,
    ext: Seq<char>,
    cmd: Option<Seq<char>>,
    ps: bool,
    dbl: bool,
    parent: Option<Seq<char>>,
) -> Seq<Seq<char>> {
    flag_if(temp_hint(p), "exec_from_temp"@) + flag_if(appdata_hint(p), "exec_from_appdata"@)
        + opt_seq(lolbin_flag(f, cmd, ps, temp_hint(p))) + shape_and_ransom_spec(p, f, cmd, dbl)
        + flag_if(system_dir_script(p, ext), "suspicious_ext_in_system32"@) + parent_flags(
        parent,
        f,
    )
}

/// The score factors the heuristics set, from the same inputs as `heuristic_flags`.
pub open spec fn heuristic_factors(
    p: Seq<char>,
    f: Seq<char>,
    cmd: Option<Seq<char>>,
    ps: bool,
    dbl: bool,
    parent: Option<Seq<char>>,
) -> ScoreFactors {
    ScoreFactors {
        exec_from_temp: temp_hint(p),
        exec_from_appdata: appdata_hint(p),
        double_extension: dbl,
        suspicious_unicode_path: has_bidi_control(p),
        ransomware_extension: ransom_extension(f),
        ransom_note: ransom_note_names().contains(f),
        shadow_copy_deletion: shadow_delete(f, cmd),
        lolbin_suspicious: lolbin_flag(f, cmd, ps, temp_hint(p)) is Some,
        suspicious_parent: parent matches Some(q) && (office_spawn(q, f) || browser_spawn(q, f)),
        ..ScoreFactors::none()
    }
}

/// What the heuristics report of a LOLBin is its flag: `lolbin_suspicious` is
/// set exactly when a LOLBin flag is raised, and that flag is among the flags.
pub proof fn lemma_lolbin_flag_reported(
    p: Seq<char>,
    f: Seq<char>,
    ext: Seq<char>,
    cmd: Option<Seq<char>>,
    ps: bool,
    dbl: bool,
    parent: Option<Seq<char>>,
)
    ensures
        heuristic_factors(p, f, cmd, ps, dbl, parent).lolbin_suspicious == (lolbin_flag(
            f,
            cmd,
            ps,
            temp_hint(p),
        ) is Some),
        lolbin_flag(f, cmd, ps, temp_hint(p)) matches Some(x) ==> heuristic_flags(
            p,
            f,
            ext,
            cmd,
            ps,
            dbl,
            parent,
        ).contains(x),
{
    match lolbin_flag(f, cmd, ps, temp_hint(p)) {
        Some(x) => {
            let pre = flag_if(temp_hint(p), "exec_from_temp"@) + flag_if(
                appdata_hint(p),
                "exec_from_appdata"@,
            );
            let with = pre + opt_seq(lolbin_flag(f, cmd, ps, temp_hint(p)));
            assert(with[pre.len() as int] == x);
            let all = heuristic_flags(p, f, ext, cmd, ps, dbl, parent);
            assert(all[pre.len() as int] == with[pre.len() as int]);
        },
        None => {},
    }
}

/// The LOLBin abuse the detection engine documents, for every command line `c`
/// (already lowercased) and temporary-directory hint `temp`:
/// - certutil with `-urlcache` or `-decode` is a download;
/// - regsvr32 loading `scrobj.dll` or a remote URL, bitsadmin with `/transfer`,
///   `/create` or `/addfile`, msiexec with a remote URL, cmstp with an `.inf`
///   file and wmic with `/node:` or `process call create` are flagged;
/// - mshta, wscript and cscript are flagged whatever their arguments;
/// - rundll32 is flagged when it runs from, or loads from, a temporary directory;
/// - powershell.exe and pwsh.exe are flagged exactly when their arguments
///   match the suspicious-arguments pattern;
/// and in every other case of these binaries no flag is raised.
pub proof fn lemma_documented_lolbin_abuse(c: Seq<char>, ps: bool, temp: bool)
    ensures
        lolbin_flag("certutil.exe"@, Some(c), ps, temp) == (if has_sub(c, "-urlcache"@) || has_sub(
            c,
            "-decode"@,
        ) {
            Some("lolbin_certutil_download"@)
        } else {
            None
        }),
        lolbin_flag("regsvr32.exe"@, Some(c), ps, temp) == (if has_sub(c, "scrobj.dll"@) || has_sub(
            c,
            "http://"@,
        ) || has_sub(c, "https://"@) {
            Some("lolbin_regsvr32_remote"@)
        } else {
            None
        }),
        lolbin_flag("bitsadmin.exe"@, Some(c), ps, temp) == (if has_sub(c, "/transfer"@) || has_sub(
            c,
            "/create"@,
        ) || has_sub(c, "/addfile"@) {
            Some("lolbin_bitsadmin_transfer"@)
        } else {
            None
        }),
        lolbin_flag("msiexec.exe"@, Some(c), ps, temp) == (if has_sub(c, "http://"@) || has_sub(
            c,
            "https://"@,
        ) {
            Some("lolbin_msiexec_remote"@)
        } else {
            None
        }),
        lolbin_flag("cmstp.exe"@, Some(c), ps, temp) == (if has_sub(c, ".inf"@) {
            Some("lolbin_cmstp_inf"@)
        } else {
            None
        }),
        lolbin_flag("wmic.exe"@, Some(c), ps, temp) == (if has_sub(c, "/node:"@) || has_sub(
            c,
            "process call create"@,
        ) {
            Some("lolbin_wmic_exec"@)
        } else {
            None
        }),
        lolbin_flag("mshta.exe"@, Some(c), ps, temp) == Some("lolbin_mshta.exe"@),
        lolbin_flag("wscript.exe"@, Some(c), ps, temp) == Some("lolbin_wscript.exe"@),
        lolbin_flag("cscript.exe"@, Some(c), ps, temp) == Some("lolbin_cscript.exe"@),
        lolbin_flag("rundll32.exe"@, Some(c), ps, temp) == (if temp || temp_hint(c) {
            Some("lolbin_rundll32_temp"@)
        } else {
            None
        }),
        lolbin_flag("powershell.exe"@, Some(c), ps, temp) == (if ps {
            Some("lolbin_ps_suspicious_args"@)
        } else {
            None
        }),
        lolbin_flag("pwsh.exe"@, Some(c), ps, temp) == (if ps {
            Some("lolbin_ps_suspicious_args"@)
        } else {
            None
        }),
{
    lemma_lolbin_via_args(c, ps, temp);
    lemma_lolbin_powershell(c, ps, temp);
}

/// A LOLBin of `arg_lolbin` that is listed is judged by `lolbin_arg_flag`.
proof fn lemma_listed_arg_lolbin(f: Seq<char>, k: int, c: Seq<char>, ps: bool, temp: bool)
    requires
        0 <= k < lolbin_names().len(),
        lolbin_names()[k] == f,
        arg_lolbin(f),
    ensures
        lolbin_flag(f, Some(c), ps, temp) == lolbin_arg_flag(f, c, temp),
{
}

proof fn lemma_lolbin_via_args(c: Seq<char>, ps: bool, temp: bool)
    ensures
        lolbin_flag("certutil.exe"@, Some(c), ps, temp) == (if has_sub(c, "-urlcache"@) || has_sub(
            c,
            "-decode"@,
        ) {
            Some("lolbin_certutil_download"@)
        } else {
            None
        }),
        lolbin_flag("regsvr32.exe"@, Some(c), ps, temp) == (if has_sub(c, "scrobj.dll"@) || has_sub(
            c,
            "http://"@,
        ) || has_sub(c, "https://"@) {
            Some("lolbin_regsvr32_remote"@)
        } else {
            None
        }),
        lolbin_flag("bitsadmin.exe"@, Some(c), ps, temp) == (if has_sub(c, "/transfer"@) || has_sub(
            c,
            "/create"@,
        ) || has_sub(c, "/addfile"@) {
            Some("lolbin_bitsadmin_transfer"@)
        } else {
            None
        }),
        lolbin_flag("msiexec.exe"@, Some(c), ps, temp) == (if has_sub(c, "http://"@) || has_sub(
            c,
            "https://"@,
        ) {
            Some("lolbin_msiexec_remote"@)
        } else {
            None
        }),
        lolbin_flag("cmstp.exe"@, Some(c), ps, temp) == (if has_sub(c, ".inf"@) {
            Some("lolbin_cmstp_inf"@)
        } else {
            None
        }),
        lolbin_flag("wmic.exe"@, Some(c), ps, temp) == (if has_sub(c, "/node:"@) || has_sub(
            c,
            "process call create"@,
        ) {
            Some("lolbin_wmic_exec"@)
        } else {
            None
        }),
        lolbin_flag("mshta.exe"@, Some(c), ps, temp) == Some("lolbin_mshta.exe"@),
        lolbin_flag("wscript.exe"@, Some(c), ps, temp) == Some("lolbin_wscript.exe"@),
        lolbin_flag("cscript.exe"@, Some(c), ps, temp) == Some("lolbin_cscript.exe"@),
        lolbin_flag("rundll32.exe"@, Some(c), ps, temp) == (if temp || temp_hint(c) {
            Some("lolbin_rundll32_temp"@)
        } else {
            None
        }),
{
    reveal_strlit("wscript.exe");
    reveal_strlit("cscript.exe");
    reveal_strlit("mshta.exe");
    reveal_strlit("rundll32.exe");
    reveal_strlit("regsvr32.exe");
    reveal_strlit("certutil.exe");
    reveal_strlit("bitsadmin.exe");
    reveal_strlit("wmic.exe");
    reveal_strlit("msiexec.exe");
    reveal_strlit("cmstp.exe");
    let names = lolbin_names();
    assert(lolbin_flag("certutil.exe"@, Some(c), ps, temp) == lolbin_arg_flag("certutil.exe"@, c, temp)) by {
        lemma_listed_arg_lolbin("certutil.exe"@, 8, c, ps, temp);
    }
    assert(lolbin_flag("mshta.exe"@, Some(c), ps, temp) == lolbin_arg_flag("mshta.exe"@, c, temp)) by {
        lemma_listed_arg_lolbin("mshta.exe"@, 5, c, ps, temp);
    }
    assert(lolbin_flag("wscript.exe"@, Some(c), ps, temp) == lolbin_arg_flag("wscript.exe"@, c, temp)) by {
        lemma_listed_arg_lolbin("wscript.exe"@, 3, c, ps, temp);
    }
    assert(lolbin_flag("cscript.exe"@, Some(c), ps, temp) == lolbin_arg_flag("cscript.exe"@, c, temp)) by {
        lemma_listed_arg_lolbin("cscript.exe"@, 4, c, ps, temp);
    }
    assert(lolbin_flag("rundll32.exe"@, Some(c), ps, temp) == lolbin_arg_flag("rundll32.exe"@, c, temp)) by {
        lemma_listed_arg_lolbin("rundll32.exe"@, 6, c, ps, temp);
    }
    assert(lolbin_flag("regsvr32.exe"@, Some(c), ps, temp) == lolbin_arg_flag("regsvr32.exe"@, c, temp)) by {
        lemma_listed_arg_lolbin("regsvr32.exe"@, 7, c, ps, temp);
    }
    assert(lolbin_flag("bitsadmin.exe"@, Some(c), ps, temp) == lolbin_arg_flag("bitsadmin.exe"@, c, temp)) by {
        lemma_listed_arg_lolbin("bitsadmin.exe"@, 9, c, ps, temp);
    }
    assert(lolbin_flag("wmic.exe"@, Some(c), ps, temp) == lolbin_arg_flag("wmic.exe"@, c, temp)) by {
        lemma_listed_arg_lolbin("wmic.exe"@, 10, c, ps, temp);
    }
    assert(lolbin_flag("msiexec.exe"@, Some(c), ps, temp) == lolbin_arg_flag("msiexec.exe"@, c, temp)) by {
        lemma_listed_arg_lolbin("msiexec.exe"@, 11, c, ps, temp);
    }
    assert(lolbin_flag("cmstp.exe"@, Some(c), ps, temp) == lolbin_arg_flag("cmstp.exe"@, c, temp)) by {
        lemma_listed_arg_lolbin("cmstp.exe"@, 16, c, ps, temp);
    }
    assert(lolbin_arg_flag("regsvr32.exe"@, c, temp) == (if has_sub(c, "scrobj.dll"@) || remote_url(c) {
        Some("lolbin_regsvr32_remote"@)
    } else {
        None
    })) by {
        assert("regsvr32.exe"@[1] != "rundll32.exe"@[1]);
        assert("regsvr32.exe"@[0] != "certutil.exe"@[0]);
    }
    assert(lolbin_arg_flag("bitsadmin.exe"@, c, temp) == (if has_sub(c, "/transfer"@) || has_sub(
        c,
        "/create"@,
    ) || has_sub(c, "/addfile"@) {
        Some("lolbin_bitsadmin_transfer"@)
    } else {
        None
    })) by {
        assert("bitsadmin.exe"@[0] != "certutil.exe"@[0]);
        assert("bitsadmin.exe"@[0] != "rundll32.exe"@[0]);
        assert("bitsadmin.exe"@[0] != "regsvr32.exe"@[0]);
    }
    assert(lolbin_arg_flag("msiexec.exe"@, c, temp) == (if remote_url(c) {
        Some("lolbin_msiexec_remote"@)
    } else {
        None
    })) by {
        assert("msiexec.exe"@[0] != "certutil.exe"@[0]);
        assert("msiexec.exe"@[2] != "mshta.exe"@[2]);
        assert("msiexec.exe"@[0] != "rundll32.exe"@[0]);
        assert("msiexec.exe"@[0] != "regsvr32.exe"@[0]);
        assert("msiexec.exe"@[0] != "bitsadmin.exe"@[0]);
    }
    assert(lolbin_arg_flag("cmstp.exe"@, c, temp) == (if has_sub(c, ".inf"@) {
        Some("lolbin_cmstp_inf"@)
    } else {
        None
    })) by {
        assert("cmstp.exe"@[0] != "certutil.exe"@[0] || "cmstp.exe"@.len() != "certutil.exe"@.len());
        assert("cmstp.exe"@[0] != "mshta.exe"@[0]);
        assert("cmstp.exe"@[1] != "cscript.exe"@[1]);
        assert("cmstp.exe"@[0] != "rundll32.exe"@[0]);
        assert("cmstp.exe"@[0] != "regsvr32.exe"@[0]);
        assert("cmstp.exe"@[0] != "bitsadmin.exe"@[0]);
        assert("cmstp.exe"@[0] != "msiexec.exe"@[0]);
    }
    assert(lolbin_arg_flag("wmic.exe"@, c, temp) == (if has_sub(c, "/node:"@) || has_sub(
        c,
        "process call create"@,
    ) {
        Some("lolbin_wmic_exec"@)
    } else {
        None
    })) by {
        assert("wmic.exe"@[0] != "certutil.exe"@[0]);
        assert("wmic.exe"@[0] != "mshta.exe"@[0]);
        assert("wmic.exe"@[1] != "wscript.exe"@[1]);
        assert("wmic.exe"@[0] != "cscript.exe"@[0]);
        assert("wmic.exe"@[0] != "rundll32.exe"@[0]);
        assert("wmic.exe"@[0] != "regsvr32.exe"@[0]);
        assert("wmic.exe"@[0] != "bitsadmin.exe"@[0]);
        assert("wmic.exe"@[0] != "msiexec.exe"@[0]);
        assert("wmic.exe"@[0] != "cmstp.exe"@[0]);
    }
    assert(lolbin_arg_flag("rundll32.exe"@, c, temp) == (if temp || temp_hint(c) {
        Some("lolbin_rundll32_temp"@)
    } else {
        None
    })) by {
        assert("rundll32.exe"@[0] != "certutil.exe"@[0]);
        assert("rundll32.exe"@[0] != "mshta.exe"@[0]);
        assert("rundll32.exe"@[0] != "wscript.exe"@[0]);
        assert("rundll32.exe"@[0] != "cscript.exe"@[0]);
    }
    assert(lolbin_arg_flag("mshta.exe"@, c, temp) == Some("lolbin_mshta.exe"@)) by {
        reveal_strlit("lolbin_");
        reveal_strlit("lolbin_mshta.exe");
        assert("mshta.exe"@[0] != "certutil.exe"@[0]);
        assert("lolbin_"@ + "mshta.exe"@ =~= "lolbin_mshta.exe"@);
    }
    assert(lolbin_arg_flag("wscript.exe"@, c, temp) == Some("lolbin_wscript.exe"@)) by {
        reveal_strlit("lolbin_");
        reveal_strlit("lolbin_wscript.exe");
        assert("wscript.exe"@[0] != "certutil.exe"@[0]);
        assert("lolbin_"@ + "wscript.exe"@ =~= "lolbin_wscript.exe"@);
    }
    assert(lolbin_arg_flag("cscript.exe"@, c, temp) == Some("lolbin_cscript.exe"@)) by {
        reveal_strlit("lolbin_");
        reveal_strlit("lolbin_cscript.exe");
        assert("cscript.exe"@[1] != "certutil.exe"@[1]);
        assert("lolbin_"@ + "cscript.exe"@ =~= "lolbin_cscript.exe"@);
    }
}

proof fn lemma_lolbin_powershell(c: Seq<char>, ps: bool, temp: bool)
    ensures
        lolbin_flag("powershell.exe"@, Some(c), ps, temp) == (if ps {
            Some("lolbin_ps_suspicious_args"@)
        } else {
            None
        }),
        lolbin_flag("pwsh.exe"@, Some(c), ps, temp) == (if ps {
            Some("lolbin_ps_suspicious_args"@)
        } else {
            None
        }),
{
    reveal_strlit("powershell.exe");
    reveal_strlit("pwsh.exe");
    reveal_strlit("powershell");
    reveal_strlit("wscript.exe");
    reveal_strlit("cscript.exe");
    reveal_strlit("mshta.exe");
    reveal_strlit("rundll32.exe");
    reveal_strlit("regsvr32.exe");
    reveal_strlit("certutil.exe");
    reveal_strlit("bitsadmin.exe");
    reveal_strlit("wmic.exe");
    reveal_strlit("msiexec.exe");
    reveal_strlit("cmstp.exe");
    let names = lolbin_names();
    assert(names[0] == "powershell.exe"@);
    assert(names[1] == "pwsh.exe"@);
    assert("powershell.exe"@.subrange(0, 10) =~= "powershell"@);
    assert(is_sub_at("powershell.exe"@, "powershell"@, 0));
    assert(!arg_lolbin("powershell.exe"@)) by {
        assert("powershell.exe"@.len() == 14);
    }
    assert(!arg_lolbin("pwsh.exe"@)) by {
        assert("pwsh.exe"@[0] == 'p');
    }
}

/// The path heuristics read the lowercased path: it counts as run from a
/// temporary directory exactly when it holds `\temp\`, `\tmp\`, `%temp%` or
/// `\appdata\local\temp`, and from AppData exactly when it holds
/// `\appdata\roaming\` or `\appdata\local\`; a suspicious parent is an
/// Office application starting a shell or script host, or a browser starting a
/// LOLBin; a ransom note is named `how_to_decrypt.txt` or
/// `readme_ransomware.html`; and shadow copies are deleted by `vssadmin` run
/// with `delete shadows`.
pub proof fn lemma_path_heuristics(
    p: Seq<char>,
    f: Seq<char>,
    cmd: Option<Seq<char>>,
    ps: bool,
    dbl: bool,
    parent: Option<Seq<char>>,
)
    ensures
        heuristic_factors(p, f, cmd, ps, dbl, parent).exec_from_temp == (has_sub(p, "\\temp\\"@)
            || has_sub(p, "\\tmp\\"@) || has_sub(p, "%temp%"@) || has_sub(
            p,
            "\\appdata\\local\\temp"@,
        )),
        heuristic_factors(p, f, cmd, ps, dbl, parent).exec_from_appdata == (has_sub(
            p,
            "\\appdata\\roaming\\"@,
        ) || has_sub(p, "\\appdata\\local\\"@)),
        heuristic_factors(p, f, cmd, ps, dbl, parent).suspicious_parent == (parent matches Some(q)
            && ((office_parent_names().contains(q) && (has_sub(f, "powershell"@) || f == "cmd.exe"@
            || f == "wscript.exe"@ || f == "cscript.exe"@)) || (browser_parent_names().contains(q)
            && lolbin_names().contains(f)))),
        heuristic_factors(p, f, cmd, ps, dbl, parent).ransom_note == (f == "how_to_decrypt.txt"@
            || f == "readme_ransomware.html"@),
        heuristic_factors(p, f, cmd, ps, dbl, parent).shadow_copy_deletion == (f == "vssadmin.exe"@
            && (cmd matches Some(c) && has_sub(c, "delete shadows"@))),
        heuristic_factors(p, f, cmd, ps, dbl, parent).double_extension == dbl,
{
    let notes = ransom_note_names();
    assert(notes[0] == "how_to_decrypt.txt"@);
    assert(notes[1] == "readme_ransomware.html"@);
}

/// A LOLBin is flagged only when its command line is known: without one the
/// heuristics never set `lolbin_suspicious` nor raise a LOLBin flag.
pub proof fn lemma_lolbin_needs_command_line(
    p: Seq<char>,
    f: Seq<char>,
    ps: bool,
    dbl: bool,
    parent: Option<Seq<char>>,
)
    ensures
        !heuristic_factors(p, f, None, ps, dbl, parent).lolbin_suspicious,
        lolbin_flag(f, None, ps, temp_hint(p)) is None,
{
}

/// A double extension weighs on its own: it sets `double_extension` and only that
/// factor among those a path or its name can raise, so a path outside any
/// temporary or AppData directory, free of direction controls, whose name is
/// neither an encrypted file's nor a ransom note's, run without a command line
/// or parent, scores exactly the double extension's weight.
pub proof fn lemma_double_extension_weighs_alone(p: Seq<char>, f: Seq<char>, ps: bool)
    requires
        !temp_hint(p),
        !appdata_hint(p),
        !has_bidi_control(p),
        !ransom_extension(f),
        !ransom_note_names().contains(f),
    ensures
        heuristic_factors(p, f, None, ps, true, None).double_extension,
        !heuristic_factors(p, f, None, ps, true, None).exec_from_temp,
        crate::scoring::score_of(heuristic_factors(p, f, None, ps, true, None)) == 30,
{
    reveal(crate::scoring::weight);
}

/// The view of an optional string.
pub open spec fn opt_view(o: Option<&str>) -> Option<Seq<char>> {
    match o {
        Some(s) => Some(s@),
        None => None,
    }
}

fn push_flag(flags: &mut Vec<String>, f: String)
    ensures
        views(final(flags)@) == views(old(flags)@).push(f@),
{
    flags.push(f);
    assert(views(flags@) =~= views(old(flags)@).push(f@));
}

fn lolbin_flag_of(f: &str, cmd: Option<&str>, ps: bool, temp: bool) -> (r: Option<String>)
    ensures
        match r {
            Some(x) => lolbin_flag(f@, opt_view(cmd), ps, temp) == Some(x@),
            None => lolbin_flag(f@, opt_view(cmd), ps, temp) is None,
        },
{
    let lols = lolbins();
    if !list_contains(&lols, f) {
        return None;
    }
    match cmd {
        None => None,
        Some(c) => {
            if str_eq(f, "certutil.exe") {
                if str_contains(c, "-urlcache") || str_contains(c, "-decode") {
                    Some(String::from_str("lolbin_certutil_download"))
                } else {
                    None
                }
            } else if str_eq(f, "mshta.exe") || str_eq(f, "wscript.exe") || str_eq(
                f,
                "cscript.exe",
            ) {
                Some(concat("lolbin_", f))
            } else if str_eq(f, "rundll32.exe") {
                if temp || temp_hint_of(c) {
                    Some(String::from_str("lolbin_rundll32_temp"))
                } else {
                    None
                }
            } else if str_eq(f, "regsvr32.exe") || str_eq(f, "bitsadmin.exe") || str_eq(
                f,
                "msiexec.exe",
            ) || str_eq(f, "cmstp.exe") || str_eq(f, "wmic.exe") {
                other_lolbin_flag(f, c)
            } else if str_contains(f, "powershell") || str_eq(f, "pwsh.exe") {
                if ps {
                    Some(String::from_str("lolbin_ps_suspicious_args"))
                } else {
                    None
                }
            } else {
                None
            }
        },
    }
}

fn remote_url_of(c: &str) -> (r: bool)
    ensures
        r == remote_url(c@),
{
    str_contains(c, "http://") || str_contains(c, "https://")
}

/// The flags of the LOLBins whose abuse is read from their arguments alone.
fn other_lolbin_flag(f: &str, c: &str) -> (r: Option<String>)
    requires
        f@ != "certutil.exe"@,
        !is_script_host(f@),
        f@ != "rundll32.exe"@,
    ensures
        match r {
            Some(x) => lolbin_arg_flag(f@, c@, false) == Some(x@),
            None => lolbin_arg_flag(f@, c@, false) is None,
        },
{
    if str_eq(f, "regsvr32.exe") {
        if str_contains(c, "scrobj.dll") || remote_url_of(c) {
            Some(String::from_str("lolbin_regsvr32_remote"))
        } else {
            None
        }
    } else if str_eq(f, "bitsadmin.exe") {
        if str_contains(c, "/transfer") || str_contains(c, "/create") || str_contains(
            c,
            "/addfile",
        ) {
            Some(String::from_str("lolbin_bitsadmin_transfer"))
        } else {
            None
        }
    } else if str_eq(f, "msiexec.exe") {
        if remote_url_of(c) {
            Some(String::from_str("lolbin_msiexec_remote"))
        } else {
            None
        }
    } else if str_eq(f, "cmstp.exe") {
        if str_contains(c, ".inf") {
            Some(String::from_str("lolbin_cmstp_inf"))
        } else {
            None
        }
    } else if str_eq(f, "wmic.exe") {
        if str_contains(c, "/node:") || str_contains(c, "process call create") {
            Some(String::from_str("lolbin_wmic_exec"))
        } else {
            None
        }
    } else {
        None
    }
}

fn ransom_extension_of(f: &str) -> (r: bool)
    ensures
        r == ransom_extension(f@),
{
    let exts: Vec<&str> = vec![".locked", ".encrypted", ".enc", ".crypted"];
    assert(str_views(exts@) =~= ransom_extension_names());
    let mut i: usize = 0;
    while i < exts.len()
        invariant
            i <= exts.len(),
            exts.len() == 4,
            str_views(exts@) == ransom_extension_names(),
            forall|j: int| 0 <= j < i ==> !has_suffix(f@, #[trigger] ransom_extension_names()[j]),
        decreases exts.len() - i,
    {
        assert(exts@[i as int]@ == ransom_extension_names()[i as int]);
        if str_ends_with(f, exts[i]) {
            return true;
        }
        i += 1;
    }
    false
}

fn ransom_note_of(f: &str) -> (r: bool)
    ensures
        r == ransom_note_names().contains(f@),
{
    let notes: Vec<&str> = vec!["how_to_decrypt.txt", "readme_ransomware.html"];
    assert(str_views(notes@) =~= ransom_note_names());
    list_contains(&notes, f)
}

fn shadow_delete_of(f: &str, cmd: Option<&str>) -> (r: bool)
    ensures
        r == shadow_delete(f@, opt_view(cmd)),
{
    match cmd {
        Some(c) => str_eq(f, "vssadmin.exe") && str_contains(c, "delete shadows"),
        None => false,
    }
}

/// Whether the path holds a Unicode direction-control character.
fn has_bidi_control_of(p: &str) -> (r: bool)
    ensures
        r == has_bidi_control(p@),
{
    let cs = chars_of(p);
    let mut i: usize = 0;
    while i < cs.len()
        invariant
            cs@ == p@,
            i <= cs.len(),
            forall|j: int| 0 <= j < i ==> !is_bidi_control(#[trigger] cs@[j]),
        decreases cs.len() - i,
    {
        let u = cs[i] as u32;
        if (0x202A <= u && u <= 0x202E) || (0x2066 <= u && u <= 0x2069) {
            assert(is_bidi_control(cs@[i as int]));
            return true;
        }
        i = i + 1;
    }
    false
}

fn append_flags(flags: &mut Vec<String>, more: Vec<String>)
    ensures
        views(final(flags)@) == views(old(flags)@) + views(more@),
{
    let ghost m = more@;
    let mut more = more;
    flags.append(&mut more);
    assert(flags@ =~= old(flags)@ + m);
    assert(views(flags@) =~= views(old(flags)@) + views(m));
}

fn temp_hint_of(p: &str) -> (r: bool)
    ensures
        r == temp_hint(p@),
{
    str_contains(p, "\\temp\\") || str_contains(p, "\\tmp\\") || str_contains(p, "%temp%")
        || str_contains(p, "\\appdata\\local\\temp")
}

fn appdata_hint_of(p: &str) -> (r: bool)
    ensures
        r == appdata_hint(p@),
{
    str_contains(p, "\\appdata\\roaming\\") || str_contains(p, "\\appdata\\local\\")
}

fn system_dir_script_of(p: &str, ext: &str) -> (r: bool)
    ensures
        r == system_dir_script(p@, ext@),
{
    let exts = suspicious_extensions();
    list_contains(&exts, ext) && (str_contains(p, "\\system32\\") || str_contains(
        p,
        "\\syswow64\\",
    ))
}

fn parent_flags_of(parent: Option<&str>, f: &str) -> (r: (Vec<String>, bool))
    ensures
        views(r.0@) == parent_flags(opt_view(parent), f@),
        r.1 == (opt_view(parent) matches Some(q) && (office_spawn(q, f@) || browser_spawn(q, f@))),
{
    let mut flags: Vec<String> = Vec::new();
    match parent {
        None => {
            assert(views(flags@) =~= parent_flags(opt_view(parent), f@));
            (flags, false)
        },
        Some(q) => {
            let offices = office_parents();
            let office = list_contains(&offices, q) && (str_contains(f, "powershell") || str_eq(
                f,
                "cmd.exe",
            ) || str_eq(f, "wscript.exe") || str_eq(f, "cscript.exe"));
            if office {
                push_flag(&mut flags, concat("office_spawned_", f));
            }
            let ghost s5 = flag_if(office_spawn(q@, f@), "office_spawned_"@ + f@);
            assert(views(flags@) =~= s5);
            let browsers = browser_parents();
            let lols = lolbins();
            let browser = list_contains(&browsers, q) && list_contains(&lols, f);
            if browser {
                push_flag(&mut flags, concat("browser_spawned_", f));
            }
            assert(views(flags@) =~= s5 + flag_if(browser_spawn(q@, f@), "browser_spawned_"@ + f@));
            (flags, office || browser)
        },
    }
}

/// The flags raised by the shape of the path and by signs of ransomware, in order.
pub open spec fn shape_and_ransom_spec(
    p: Seq<char>,
    f: Seq<char>,
    cmd: Option<Seq<char>>,
    dbl: bool,
) -> Seq<Seq<char>> {
    flag_if(dbl, "double_extension"@) + flag_if(has_bidi_control(p), "suspicious_unicode_path"@)
        + flag_if(ransom_extension(f), "ransomware_extension"@) + flag_if(
        ransom_note_names().contains(f),
        "ransom_note"@,
    ) + flag_if(shadow_delete(f, cmd), "shadow_copy_deletion"@)
}

fn shape_and_ransom_flags(path_lower: &str, file_name_lower: &str, cmd_lower: Option<&str>, dbl: bool) -> (r: (
    Vec<String>,
    bool,
    bool,
    bool,
    bool,
))
    ensures
        views(r.0@) == shape_and_ransom_spec(path_lower@, file_name_lower@, opt_view(cmd_lower), dbl),
        r.1 == has_bidi_control(path_lower@),
        r.2 == ransom_extension(file_name_lower@),
        r.3 == ransom_note_names().contains(file_name_lower@),
        r.4 == shadow_delete(file_name_lower@, opt_view(cmd_lower)),
{
    let ghost p = path_lower@;
    let ghost f = file_name_lower@;
    let mut flags: Vec<String> = Vec::new();
    if dbl {
        push_flag(&mut flags, String::from_str("double_extension"));
    }
    let bidi = has_bidi_control_of(path_lower);
    if bidi {
        push_flag(&mut flags, String::from_str("suspicious_unicode_path"));
    }
    let ghost s1 = flag_if(dbl, "double_extension"@) + flag_if(
        has_bidi_control(p),
        "suspicious_unicode_path"@,
    );
    assert(views(flags@) =~= s1);
    let ext = ransom_extension_of(file_name_lower);
    if ext {
        push_flag(&mut flags, String::from_str("ransomware_extension"));
    }
    let ghost s2 = s1 + flag_if(ransom_extension(f), "ransomware_extension"@);
    assert(views(flags@) =~= s2);
    let note = ransom_note_of(file_name_lower);
    if note {
        push_flag(&mut flags, String::from_str("ransom_note"));
    }
    let ghost s3 = s2 + flag_if(ransom_note_names().contains(f), "ransom_note"@);
    assert(views(flags@) =~= s3);
    let shadow = shadow_delete_of(file_name_lower, cmd_lower);
    if shadow {
        push_flag(&mut flags, String::from_str("shadow_copy_deletion"));
    }
    assert(views(flags@) =~= s3 + flag_if(shadow_delete(f, opt_view(cmd_lower)), "shadow_copy_deletion"@));
    (flags, bidi, ext, note, shadow)
}

/// Apply the heuristics to already lowercased inputs and the two pattern results.
/// `ext_lower` is the dotted lowercased extension, or empty when there is none.
#[verifier::rlimit(80)]
#[verifier::spinoff_prover]
pub fn assess_heuristics(
    path_lower: &str,
    file_name_lower: &str,
    ext_lower: &str,
    cmd_lower: Option<&str>,
    ps_args_suspicious: bool,
    double_extension: bool,
    parent_lower: Option<&str>,
) -> (r: HeuristicResult)
    ensures
        views(r.flags@) == heuristic_flags(
            path_lower@,
            file_name_lower@,
            ext_lower@,
            opt_view(cmd_lower),
            ps_args_suspicious,
            double_extension,
            opt_view(parent_lower),
        ),
        r.score_factors == heuristic_factors(
            path_lower@,
            file_name_lower@,
            opt_view(cmd_lower),
            ps_args_suspicious,
            double_extension,
            opt_view(parent_lower),
        ),
{
    let ghost p = path_lower@;
    let ghost f = file_name_lower@;
    let mut flags: Vec<String> = Vec::new();

    let temp = temp_hint_of(path_lower);
    if temp {
        push_flag(&mut flags, String::from_str("exec_from_temp"));
    }
    assert(views(flags@) =~= flag_if(temp_hint(p), "exec_from_temp"@));

    let appdata = appdata_hint_of(path_lower);
    if appdata {
        push_flag(&mut flags, String::from_str("exec_from_appdata"));
    }
    let ghost s1 = flag_if(temp_hint(p), "exec_from_temp"@) + flag_if(
        appdata_hint(p),
        "exec_from_appdata"@,
    );
    assert(views(flags@) =~= s1);

    let lol = lolbin_flag_of(file_name_lower, cmd_lower, ps_args_suspicious, temp);
    let lolbin = lol.is_some();
    match lol {
        Some(x) => {
            push_flag(&mut flags, x);
        },
        None => {},
    }
    let ghost s2 = s1 + opt_seq(lolbin_flag(f, opt_view(cmd_lower), ps_args_suspicious, temp));
    assert(views(flags@) =~= s2);

    let (shape, bidi, ransom_ext, note, shadow) = shape_and_ransom_flags(
        path_lower,
        file_name_lower,
        cmd_lower,
        double_extension,
    );
    append_flags(&mut flags, shape);
    let ghost s3 = s2 + shape_and_ransom_spec(p, f, opt_view(cmd_lower), double_extension);
    assert(views(flags@) =~= s3);

    if system_dir_script_of(path_lower, ext_lower) {
        push_flag(&mut flags, String::from_str("suspicious_ext_in_system32"));
    }
    let ghost s4 = s3 + flag_if(system_dir_script(p, ext_lower@), "suspicious_ext_in_system32"@);
    assert(views(flags@) =~= s4);

    let (pflags, suspicious_parent) = parent_flags_of(parent_lower, file_name_lower);
    append_flags(&mut flags, pflags);
    let d = ScoreFactors::default();
    let factors = ScoreFactors {
        exec_from_temp: temp,
        exec_from_appdata: appdata,
        lolbin_suspicious: lolbin,
        suspicious_parent,
        double_extension,
        suspicious_unicode_path: bidi,
        ransomware_extension: ransom_ext,
        ransom_note: note,
        shadow_copy_deletion: shadow,
        ..d
    };
    HeuristicResult { flags, score_factors: factors }
}

/// The file name of a path, or the empty string when it has none.
pub open spec fn name_or_empty(path: Seq<char>) -> Seq<char> {
    match file_name_of(path) {
        Some(n) => n,
        None => seq![],
    }
}

/// The dotted lowercased extension of a path, or the empty string when it has none.
pub open spec fn dotted_extension(path: Seq<char>) -> Seq<char> {
    match extension_of(path) {
        Some(e) => "."@ + str_lowercase(e),
        None => seq![],
    }
}

/// The lowercased optional string.
pub open spec fn lower_opt(o: Option<Seq<char>>) -> Option<Seq<char>> {
    match o {
        Some(s) => Some(str_lowercase(s)),
        None => None,
    }
}

/// The PowerShell pattern matched the lowercased command line.
pub open spec fn ps_suspicious(cmd: Option<Seq<char>>) -> bool {
    match cmd {
        Some(c) => regex_match(PS_SUSPICIOUS_PATTERN@, str_lowercase(c)) == Some(true),
        None => false,
    }
}

/// The double-extension pattern matched the lowercased path.
pub open spec fn double_extension_match(path: Seq<char>) -> bool {
    regex_match(DOUBLE_EXTENSION_PATTERN@, str_lowercase(path)) == Some(true)
}

/// The flags `analyse_file` raises for a path, command line and parent name.
pub open spec fn analysed_flags(path: Seq<char>, cmd: Option<Seq<char>>, parent: Option<Seq<char>>) -> Seq<
    Seq<char>,
> {
    heuristic_flags(
        str_lowercase(path),
        str_lowercase(name_or_empty(path)),
        dotted_extension(path),
        lower_opt(cmd),
        ps_suspicious(cmd),
        double_extension_match(path),
        lower_opt(parent),
    )
}

/// The score factors `analyse_file` sets for a path, command line and parent name.
pub open spec fn analysed_factors(path: Seq<char>, cmd: Option<Seq<char>>, parent: Option<Seq<char>>) -> ScoreFactors {
    heuristic_factors(
        str_lowercase(path),
        str_lowercase(name_or_empty(path)),
        lower_opt(cmd),
        ps_suspicious(cmd),
        double_extension_match(path),
        lower_opt(parent),
    )
}

/// Analyse a file path and optional command-line to produce heuristic flags.
/// The analysis does not depend on ASCII case: the result is also the one for
/// the inputs with their ASCII letters lowercased, so inputs equal up to the
/// case of ASCII letters give the same flags and factors.
pub fn analyse_file(path: &str, cmdline: Option<&str>, parent_name: Option<&str>) -> (r:
    HeuristicResult)
    ensures
        views(r.flags@) == analysed_flags(path@, opt_view(cmdline), opt_view(parent_name)),
        r.score_factors == analysed_factors(path@, opt_view(cmdline), opt_view(parent_name)),
        views(r.flags@) == analysed_flags(
            ascii_fold(path@),
            ascii_fold_opt(opt_view(cmdline)),
            ascii_fold_opt(opt_view(parent_name)),
        ),
        r.score_factors == analysed_factors(
            ascii_fold(path@),
            ascii_fold_opt(opt_view(cmdline)),
            ascii_fold_opt(opt_view(parent_name)),
        ),
{
    let path_lower = lowercase(path);
    let name = match file_name(path) {
        Some(n) => n,
        None => String::new(),
    };
    let name_lower = lowercase(name.as_str());
    let ext = match extension(path) {
        Some(e) => {
            let el = lowercase(e.as_str());
            concat(".", el.as_str())
        },
        None => String::new(),
    };
    let cmd_lower: Option<String> = match cmdline {
        Some(c) => Some(lowercase(c)),
        None => None,
    };
    let ps = match &cmd_lower {
        Some(c) => regex_is_match(PS_SUSPICIOUS_PATTERN, c.as_str()) == Some(true),
        None => false,
    };
    let dbl = regex_is_match(DOUBLE_EXTENSION_PATTERN, path_lower.as_str()) == Some(true);
    let parent_lower: Option<String> = match parent_name {
        Some(q) => Some(lowercase(q)),
        None => None,
    };
    let cmd_ref: Option<&str> = match &cmd_lower {
        Some(c) => Some(c.as_str()),
        None => None,
    };
    let parent_ref: Option<&str> = match &parent_lower {
        Some(q) => Some(q.as_str()),
        None => None,
    };
    assert(opt_view(cmd_ref) == lower_opt(opt_view(cmdline)));
    assert(opt_view(parent_ref) == lower_opt(opt_view(parent_name)));
    proof {
        lemma_file_name_ignores_ascii_case(path@);
        let fp = ascii_fold(path@);
        assert(str_lowercase(fp) == str_lowercase(path@));
        assert(name_or_empty(fp) == ascii_fold(name@));
        assert(str_lowercase(name_or_empty(fp)) == str_lowercase(name_or_empty(path@)));
        assert(dotted_extension(fp) == dotted_extension(path@));
        assert(lower_opt(ascii_fold_opt(opt_view(cmdline))) == lower_opt(opt_view(cmdline)));
        assert(ps_suspicious(ascii_fold_opt(opt_view(cmdline))) == ps_suspicious(opt_view(cmdline)));
        assert(lower_opt(ascii_fold_opt(opt_view(parent_name))) == lower_opt(opt_view(parent_name)));
        assert(double_extension_match(fp) == double_extension_match(path@));
    }
    assess_heuristics(
        path_lower.as_str(),
        name_lower.as_str(),
        ext.as_str(),
        cmd_ref,
        ps,
        dbl,
        parent_ref,
    )
}

/// Detect potential ransomware: true when the modifications in the window are
/// more than the threshold.
pub fn detect_mass_file_modification(events_in_window: usize, threshold: usize) -> (r: bool)
    ensures
        r == (events_in_window > threshold),
{
    events_in_window > threshold
}

/// Check if a given extension (without its dot) is suspicious.
pub fn is_suspicious_extension(ext: &str) -> (r: bool)
    ensures
        r == suspicious_extension_names().contains("."@ + str_lowercase(ext@)),
{
    let lower = lowercase(ext);
    let dotted = concat(".", lower.as_str());
    let exts = suspicious_extensions();
    list_contains(&exts, dotted.as_str())
}

/// Returns true if the file name matches a known LOLBin.
pub fn is_lolbin(file_name: &str) -> (r: bool)
    ensures
        r == lolbin_names().contains(str_lowercase(file_name@)),
{
    let lower = lowercase(file_name);
    let lols = lolbins();
    list_contains(&lols, lower.as_str())
}

} // verus!
