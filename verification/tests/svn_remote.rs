use ast_grep_gui::svn_remote::{
    dav_dir_url, dav_entry_action, git_clone_plan, href_to_name, parse_revision, parse_u64,
    parse_version_from_propfind, propfind_body, svn_client_for_url, DavAction, DavEntry, SvnClientKind,
};

#[test]
fn revisions_blank_and_head_mean_latest() {
    assert_eq!(parse_revision(""), None);
    assert_eq!(parse_revision("  "), None);
    assert_eq!(parse_revision("HEAD"), None);
    assert_eq!(parse_revision("head"), None);
    assert_eq!(parse_revision("HeAd"), None);
    assert_eq!(parse_revision(" 42 "), Some(42));
    assert_eq!(parse_revision("+7"), Some(7));
    assert_eq!(parse_revision("r42"), None);
    assert_eq!(parse_u64("18446744073709551615"), Some(u64::MAX));
    assert_eq!(parse_u64("18446744073709551616"), None);
}

#[test]
fn propfind_version_is_read_before_next_tag() {
    let xml = "<D:multistatus><S:version-name> 1234 </S:version-name></D:multistatus>";
    assert_eq!(parse_version_from_propfind(xml), Some(1234));
    assert_eq!(parse_version_from_propfind("<version-name>x</version-name>"), None);
    assert_eq!(parse_version_from_propfind("<nothing/>"), None);
    assert!(propfind_body().contains("<S:version-name/>"));
    assert!(propfind_body().starts_with("<?xml version=\"1.0\" encoding=\"utf-8\"?>\n<D:propfind"));
}

#[test]
fn href_names_are_last_pieces_below_the_base() {
    assert_eq!(href_to_name("/repo/trunk/src/", "/repo/trunk"), "src");
    assert_eq!(href_to_name("/repo/trunk/a.txt", "/repo/trunk"), "a.txt");
    assert_eq!(href_to_name("/repo/trunk/", "/repo/trunk"), "");
    assert_eq!(href_to_name("/other/x/y", "/repo"), "y");
}

#[test]
fn dav_entries_become_descents_and_downloads() {
    assert_eq!(dav_dir_url("http://h/repo/", ""), "http://h/repo/");
    assert_eq!(dav_dir_url("http://h/repo/", "/src"), "http://h/repo/src");
    let dir = DavEntry { name: "src/".to_string(), is_dir: true, is_file: false };
    match dav_entry_action(&dir, "http://h/repo", "", 5) {
        DavAction::Descend { sub, local_name } => {
            assert_eq!(sub, "src");
            assert_eq!(local_name, "src");
        }
        _ => panic!("expected a descent"),
    }
    match dav_entry_action(&dir, "http://h/repo", "lib/", 5) {
        DavAction::Descend { sub, .. } => assert_eq!(sub, "lib/src"),
        _ => panic!("expected a descent"),
    }
    let file = DavEntry { name: "a.rs".to_string(), is_dir: false, is_file: true };
    match dav_entry_action(&file, "http://h/repo/", "/lib", 12) {
        DavAction::Download { url, local_name } => {
            assert_eq!(url, "http://h/repo/lib/a.rs?p=12");
            assert_eq!(local_name, "a.rs");
        }
        _ => panic!("expected a download"),
    }
    let dot = DavEntry { name: "./".to_string(), is_dir: true, is_file: false };
    assert!(matches!(dav_entry_action(&dot, "http://h", "", 1), DavAction::Skip));
    let other = DavEntry { name: "x".to_string(), is_dir: false, is_file: false };
    assert!(matches!(dav_entry_action(&other, "http://h", "", 1), DavAction::Skip));
}

#[test]
fn svn_schemes_choose_the_client() {
    assert!(matches!(svn_client_for_url(" HTTPS://svn.example/repo "), Ok(SvnClientKind::Http)));
    assert!(matches!(svn_client_for_url("svn+ssh://host/repo"), Ok(SvnClientKind::RaSvn)));
    assert!(matches!(svn_client_for_url("svn://host/repo"), Ok(SvnClientKind::RaSvn)));
    assert_eq!(svn_client_for_url("   ").err().as_deref(), Some("SVN URL is empty"));
    assert_eq!(
        svn_client_for_url(" ftp://x ").err().as_deref(),
        Some("unsupported SVN URL scheme: ftp://x")
    );
}

#[test]
fn git_clone_checks_trim_url_and_ref() {
    assert_eq!(git_clone_plan("  ", "main").err().as_deref(), Some("Git URL is empty"));
    assert_eq!(
        git_clone_plan(" https://g/r.git ", " v1 ").ok(),
        Some(("https://g/r.git".to_string(), Some("v1".to_string())))
    );
    assert_eq!(git_clone_plan("https://g/r.git", "  ").ok(), Some(("https://g/r.git".to_string(), None)));
}
