use nsjail_builder::{NSJail, NSMount, NSMountType, NSSymlink};

fn args_of(jail: NSJail) -> Vec<String> {
    jail.into_invocation().args
}

#[test]
fn example_configuration_renders_exactly() {
    let mut jail = NSJail::default();
    jail.mount(NSMount::bind("/usr", "/usr"));
    jail.mount(NSMount::readonly("/etc", "/etc"));
    jail.mount(NSMount::temp("/tmp"));
    let expected = vec![
        "--user", "1000", "--group", "1000", "--bindmount", "/usr:/usr", "--bindmount_ro",
        "/etc:/etc", "-m", "none:/tmp:tmpfs:", "--keep_env", "--",
    ];
    assert_eq!(args_of(jail), expected);
}

#[test]
fn default_renders_identity_and_closing_only() {
    let inv = NSJail::default().into_invocation();
    assert_eq!(inv.program, "/usr/bin/nsjail");
    assert_eq!(inv.args, vec!["--user", "1000", "--group", "1000", "--keep_env", "--"]);
    assert!(inv.env.is_empty());
}

#[test]
fn mounts_render_in_attachment_order() {
    let mut jail = NSJail::default();
    jail.mount(NSMount::temp("/b"))
        .mount(NSMount::bind("/a", "/a"))
        .mount(NSMount::readonly("/c", "/d"));
    let args = args_of(jail);
    assert_eq!(&args[4..10], &["-m", "none:/b:tmpfs:", "--bindmount", "/a:/a", "--bindmount_ro", "/c:/d"]);
}

#[test]
fn later_mount_on_same_path_comes_after() {
    let mut jail = NSJail::default();
    jail.mount(NSMount::bind("/x", "/data"));
    jail.mount(NSMount::temp("/data"));
    let args = args_of(jail);
    assert_eq!(args[5], "/x:/data");
    assert_eq!(args[7], "none:/data:tmpfs:");
}

#[test]
fn readonly_renders_bindmount_ro() {
    let m = NSMount::readonly("a", "b");
    assert_eq!(m.to_write_arg(), ("--bindmount_ro", "a:b".to_string()));
    assert!(!m.is_readwrite());
    assert!(m.is_mandatory());
}

#[test]
fn bind_renders_bindmount() {
    let m = NSMount::bind("/src/dir", "/dst");
    assert_eq!(m.to_write_arg(), ("--bindmount", "/src/dir:/dst".to_string()));
    assert!(m.is_readwrite());
    assert!(m.is_mandatory());
}

#[test]
fn temp_renders_empty_trailing_field() {
    let m = NSMount::temp("/scratch");
    let (flag, value) = m.to_write_arg();
    assert_eq!(flag, "-m");
    assert_eq!(value, "none:/scratch:tmpfs:");
    assert!(value.ends_with(':'));
    assert!(m.is_readwrite());
}

#[test]
fn empty_paths_are_accepted() {
    assert_eq!(NSMount::bind("", "").to_write_arg(), ("--bindmount", ":".to_string()));
    assert_eq!(NSMount::temp("").to_write_arg(), ("-m", "none::tmpfs:".to_string()));
}

#[test]
fn flag_setters_chain_and_change_rendering() {
    let mut m = NSMount::bind("/a", "/b");
    m.make_readonly().not_mandatory();
    assert!(!m.is_readwrite());
    assert!(!m.is_mandatory());
    assert_eq!(m.to_write_arg().0, "--bindmount_ro");
    m.make_readwrite().mandatory();
    assert!(m.is_readwrite());
    assert!(m.is_mandatory());
    assert_eq!(m.to_write_arg().0, "--bindmount");
}

#[test]
fn mandatory_flag_is_not_rendered() {
    let mut optional = NSMount::bind("/a", "/b");
    optional.not_mandatory();
    assert_eq!(optional.to_write_arg(), NSMount::bind("/a", "/b").to_write_arg());
}

#[test]
fn readonly_temp_still_renders_as_tmpfs() {
    let mut m = NSMount::temp("/t");
    m.make_readonly();
    assert_eq!(m.to_write_arg(), ("-m", "none:/t:tmpfs:".to_string()));
}

#[test]
fn kind_exposes_paths() {
    match NSMount::bind("/s", "/d").kind() {
        NSMountType::BindMount { src, dest } => {
            assert_eq!(src, "/s");
            assert_eq!(dest, "/d");
        }
        NSMountType::TmpFs { .. } => panic!("expected a bind mount"),
    }
    match NSMount::temp("/t").kind() {
        NSMountType::TmpFs { dest } => assert_eq!(dest, "/t"),
        NSMountType::BindMount { .. } => panic!("expected a tmpfs"),
    }
}

#[test]
fn terminator_appears_once_and_last() {
    let mut jail = NSJail::default();
    jail.mount(NSMount::bind("-", "-"));
    jail.mount(NSMount::temp("--"));
    let args = args_of(jail);
    assert_eq!(args.last().map(|s| s.as_str()), Some("--"));
    assert_eq!(args.iter().filter(|a| a.as_str() == "--").count(), 1);
    let keep = args.iter().position(|a| a == "--keep_env").unwrap();
    assert_eq!(keep, args.len() - 2);
}

#[test]
fn same_calls_render_same_arguments() {
    let build = || {
        let mut jail = NSJail::default();
        jail.mount(NSMount::bind("/usr", "/usr"));
        jail.mount(NSMount::temp("/tmp"));
        jail.symlink(NSSymlink::new("/a", "/b"));
        jail
    };
    assert_eq!(args_of(build()), args_of(build()));
}

#[test]
fn symlinks_do_not_change_arguments() {
    let mut with_links = NSJail::default();
    with_links.mount(NSMount::bind("/usr", "/usr"));
    with_links.symlink(("/bin/sh".to_string(), "/sh".to_string()));
    with_links.symlink(NSSymlink::new("/x", "/y"));
    let mut without = NSJail::default();
    without.mount(NSMount::bind("/usr", "/usr"));
    assert_eq!(args_of(with_links), args_of(without));
}

#[test]
fn symlink_from_pair_keeps_order_of_fields() {
    let link = NSSymlink::from(("/src".to_string(), "/dest".to_string()));
    assert_eq!(link.src(), "/src");
    assert_eq!(link.dest(), "/dest");
    let made = NSSymlink::new("/p", "/q");
    assert_eq!(made.src(), "/p");
    assert_eq!(made.dest(), "/q");
}
