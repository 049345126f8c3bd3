use apfs_copier::engine::Config;
use apfs_copier::engine::Engine;
use apfs_copier::engine::Phase;
use std::collections::HashMap;
use std::collections::HashSet;

/// A simulated source volume, destination filesystem and mount controller,
/// with injectable faults.
struct SimFs {
    dirs: HashSet<String>,
    files: HashMap<String, Vec<u8>>,
    children: HashMap<String, Vec<String>>,
    /// Directory -> number of children yielded before the listing aborts
    /// with a connection abort.  Consumed on first use.
    list_abort_after: HashMap<String, usize>,
    /// Source file -> OS error code of its first copy attempt.
    copy_error_once: HashMap<String, i32>,
    /// Destination directory -> OS error code of its first creation attempt.
    create_error_once: HashMap<String, i32>,
    dest_dirs: HashSet<String>,
    dest_files: HashMap<String, Vec<u8>>,
    copies: usize,
    mounts: usize,
    unmounts: usize,
    mount_fail_remaining: usize,
    /// Every (phase, pending source path) pair the driver acted on, in order.
    targets: Vec<(Phase, String)>,
}

fn sim_fs() -> SimFs {
    SimFs {
        dirs: HashSet::new(),
        files: HashMap::new(),
        children: HashMap::new(),
        list_abort_after: HashMap::new(),
        copy_error_once: HashMap::new(),
        create_error_once: HashMap::new(),
        dest_dirs: HashSet::new(),
        dest_files: HashMap::new(),
        copies: 0,
        mounts: 0,
        unmounts: 0,
        mount_fail_remaining: 0,
        targets: Vec::new(),
    }
}

fn add_dir(fs: &mut SimFs, path: &str, children: &[&str]) {
    fs.dirs.insert(path.to_string());
    fs.children
        .insert(path.to_string(), children.iter().map(|c| c.to_string()).collect());
}

fn add_file(fs: &mut SimFs, path: &str, content: &[u8]) {
    fs.files.insert(path.to_string(), content.to_vec());
}

fn cfg() -> Config {
    Config {
        device: "/dev/sdx1".to_string(),
        mount_point: "/mnt".to_string(),
        source: "/mnt/root".to_string(),
        dest: "/dest".to_string(),
    }
}

/// Runs the engine against the simulated filesystem until it terminates.
fn drive(e: &mut Engine, fs: &mut SimFs) {
    let mut steps: usize = 0;
    loop {
        steps += 1;
        assert!(steps < 10_000, "driver did not terminate");
        fs.targets.push((e.phase, e.cur.clone()));
        match e.phase {
            Phase::Idle => unreachable!(),
            Phase::AwaitIsDir => {
                let is_dir = fs.dirs.contains(&e.cur);
                e.on_is_dir(is_dir);
            }
            Phase::AwaitCreate | Phase::AwaitCreateRetry => {
                if let Some(code) = fs.create_error_once.remove(&e.cur_dest) {
                    e.on_create_dir(Err(Some(code)));
                } else {
                    fs.dest_dirs.insert(e.cur_dest.clone());
                    e.on_create_dir(Ok(()));
                }
            }
            Phase::AwaitList => {
                let all = fs.children.get(&e.cur).cloned().unwrap_or_default();
                if let Some(k) = fs.list_abort_after.remove(&e.cur) {
                    let partial = all[..k].to_vec();
                    e.on_list_dir(partial, Err(Some(103)));
                } else {
                    e.on_list_dir(all, Ok(()));
                }
            }
            Phase::AwaitExists | Phase::AwaitExistsRetry => {
                let exists = fs.dest_files.contains_key(&e.cur_dest);
                e.on_exists(exists);
            }
            Phase::AwaitCopy | Phase::AwaitCopyRetry => {
                if let Some(code) = fs.copy_error_once.remove(&e.cur) {
                    e.on_copy(Err(Some(code)));
                } else {
                    let content = fs
                        .files
                        .get(&e.cur)
                        .cloned()
                        .expect("copy of an unknown source file");
                    fs.dest_files.insert(e.cur_dest.clone(), content);
                    fs.copies += 1;
                    e.on_copy(Ok(()));
                }
            }
            Phase::AwaitUnmount => {
                fs.unmounts += 1;
                e.on_unmount(true);
            }
            Phase::AwaitMount => {
                fs.mounts += 1;
                if fs.mount_fail_remaining > 0 {
                    fs.mount_fail_remaining -= 1;
                    e.on_mount(false);
                } else {
                    e.on_mount(true);
                }
            }
            Phase::Done | Phase::Aborted => return,
        }
    }
}

#[test]
fn full_tree_is_copied_byte_identical() {
    let mut fs = sim_fs();
    add_dir(&mut fs, "/mnt/root", &["/mnt/root/A", "/mnt/root/B"]);
    add_dir(&mut fs, "/mnt/root/A", &["/mnt/root/A/x.txt", "/mnt/root/A/y.txt"]);
    add_dir(&mut fs, "/mnt/root/B", &["/mnt/root/B/z.txt"]);
    add_file(&mut fs, "/mnt/root/A/x.txt", b"xxx");
    add_file(&mut fs, "/mnt/root/A/y.txt", b"yy");
    add_file(&mut fs, "/mnt/root/B/z.txt", b"z");

    let mut e = Engine::new(cfg());
    e.start(Ok(()));
    drive(&mut e, &mut fs);

    assert_eq!(e.phase, Phase::Done);
    assert_eq!(fs.copies, 3);
    assert_eq!(fs.dest_files.get("/dest/A/x.txt"), Some(&b"xxx".to_vec()));
    assert_eq!(fs.dest_files.get("/dest/A/y.txt"), Some(&b"yy".to_vec()));
    assert_eq!(fs.dest_files.get("/dest/B/z.txt"), Some(&b"z".to_vec()));
    assert_eq!(fs.dest_files.len(), 3);
    assert!(fs.dest_dirs.contains("/dest"));
    assert!(fs.dest_dirs.contains("/dest/A"));
    assert!(fs.dest_dirs.contains("/dest/B"));
}

#[test]
fn second_run_copies_nothing() {
    let mut fs = sim_fs();
    add_dir(&mut fs, "/mnt/root", &["/mnt/root/A"]);
    add_dir(&mut fs, "/mnt/root/A", &["/mnt/root/A/x.txt"]);
    add_file(&mut fs, "/mnt/root/A/x.txt", b"payload");

    let mut first = Engine::new(cfg());
    first.start(Ok(()));
    drive(&mut first, &mut fs);
    assert_eq!(first.phase, Phase::Done);
    assert_eq!(fs.copies, 1);

    let before = fs.dest_files.clone();
    fs.copies = 0;
    let mut second = Engine::new(cfg());
    second.start(Ok(()));
    drive(&mut second, &mut fs);

    assert_eq!(second.phase, Phase::Done);
    assert_eq!(fs.copies, 0);
    assert_eq!(fs.dest_files, before);
}

#[test]
fn weird_name_is_handled_by_the_bulk_mapping() {
    let mut fs = sim_fs();
    add_dir(&mut fs, "/mnt/root", &["/mnt/root/weird:name*.txt"]);
    add_file(&mut fs, "/mnt/root/weird:name*.txt", b"contents");

    let mut e = Engine::new(cfg());
    e.start(Ok(()));
    drive(&mut e, &mut fs);

    assert_eq!(e.phase, Phase::Done);
    assert_eq!(
        fs.dest_files.get("/dest/weird_name_.txt"),
        Some(&b"contents".to_vec())
    );
    let repair_phases = [
        Phase::AwaitCreateRetry,
        Phase::AwaitExistsRetry,
        Phase::AwaitCopyRetry,
    ];
    assert!(fs
        .targets
        .iter()
        .all(|(ph, _)| !repair_phases.contains(ph)));
}

#[test]
fn listing_abort_keeps_the_yielded_child_and_remounts() {
    let mut fs = sim_fs();
    add_dir(&mut fs, "/mnt/root", &["/mnt/root/C"]);
    add_dir(&mut fs, "/mnt/root/C", &["/mnt/root/C/p.txt"]);
    add_file(&mut fs, "/mnt/root/C/p.txt", b"p");
    fs.list_abort_after.insert("/mnt/root/C".to_string(), 1);

    let mut e = Engine::new(cfg());
    e.start(Ok(()));
    drive(&mut e, &mut fs);

    assert_eq!(e.phase, Phase::Done);
    assert_eq!(fs.dest_files.get("/dest/C/p.txt"), Some(&b"p".to_vec()));
    assert!(e.registry.is_failure(&"/mnt/root/C".to_string()));
    assert_eq!(fs.unmounts, 1);
    assert_eq!(fs.mounts, 1);
}

#[test]
fn marked_directory_is_never_visited_again() {
    let mut fs = sim_fs();
    add_dir(&mut fs, "/mnt/root", &["/mnt/root/A", "/mnt/root/C"]);
    // C's listing aborts before yielding anything: C is marked failed.
    add_dir(&mut fs, "/mnt/root/C", &["/mnt/root/C/q.txt"]);
    add_file(&mut fs, "/mnt/root/C/q.txt", b"q");
    fs.list_abort_after.insert("/mnt/root/C".to_string(), 0);
    // A is expanded afterwards and names the marked path a second time.
    add_dir(&mut fs, "/mnt/root/A", &["/mnt/root/C", "/mnt/root/A/f.txt"]);
    add_file(&mut fs, "/mnt/root/A/f.txt", b"f");

    let mut e = Engine::new(cfg());
    e.start(Ok(()));
    drive(&mut e, &mut fs);

    assert_eq!(e.phase, Phase::Done);
    assert!(e.registry.is_failure(&"/mnt/root/C".to_string()));
    assert!(!e.registry.is_failure(&"/mnt/root/A".to_string()));
    assert_eq!(fs.dest_files.get("/dest/A/f.txt"), Some(&b"f".to_vec()));
    assert!(fs.dest_files.keys().all(|k| !k.starts_with("/dest/C")));
    // After the abort was observed, no filesystem operation targets C again.
    let first_unmount = fs
        .targets
        .iter()
        .position(|(ph, _)| *ph == Phase::AwaitUnmount)
        .expect("a remount cycle was expected");
    assert!(fs.targets[first_unmount..]
        .iter()
        .all(|(ph, cur)| *ph == Phase::AwaitUnmount
            || *ph == Phase::AwaitMount
            || *ph == Phase::Done
            || cur != "/mnt/root/C"));
}

#[test]
fn mount_retries_until_success_without_a_cap() {
    let mut fs = sim_fs();
    add_dir(&mut fs, "/mnt/root", &["/mnt/root/a.txt"]);
    add_file(&mut fs, "/mnt/root/a.txt", b"a");
    fs.mount_fail_remaining = 2;

    let mut e = Engine::new(cfg());
    // The startup probe reports that the transport is not connected.
    e.start(Err(Some(107)));
    assert_eq!(e.phase, Phase::AwaitMount);
    drive(&mut e, &mut fs);

    assert_eq!(e.phase, Phase::Done);
    // Two failed attempts, each followed by an unmount-and-settle cycle,
    // then the successful third attempt.
    assert_eq!(fs.mounts, 3);
    assert_eq!(fs.unmounts, 2);
    assert_eq!(fs.dest_files.get("/dest/a.txt"), Some(&b"a".to_vec()));
}

#[test]
fn unknown_probe_error_is_fatal() {
    let mut e = Engine::new(cfg());
    e.start(Err(Some(13)));
    assert_eq!(e.phase, Phase::Aborted);
}

#[test]
fn source_read_error_skips_the_one_file_silently() {
    let mut fs = sim_fs();
    add_dir(&mut fs, "/mnt/root", &["/mnt/root/bad.txt", "/mnt/root/good.txt"]);
    add_file(&mut fs, "/mnt/root/bad.txt", b"bad");
    add_file(&mut fs, "/mnt/root/good.txt", b"good");
    fs.copy_error_once.insert("/mnt/root/bad.txt".to_string(), 5);

    let mut e = Engine::new(cfg());
    e.start(Ok(()));
    drive(&mut e, &mut fs);

    assert_eq!(e.phase, Phase::Done);
    assert_eq!(fs.copies, 1);
    assert_eq!(fs.dest_files.get("/dest/good.txt"), Some(&b"good".to_vec()));
    assert!(!fs.dest_files.contains_key("/dest/bad.txt"));
    assert!(!e.registry.is_failure(&"/mnt/root/bad.txt".to_string()));
    assert_eq!(fs.unmounts, 0);
}

#[test]
fn copy_abort_marks_the_file_and_remounts() {
    let mut fs = sim_fs();
    add_dir(&mut fs, "/mnt/root", &["/mnt/root/flaky.txt", "/mnt/root/ok.txt"]);
    add_file(&mut fs, "/mnt/root/flaky.txt", b"flaky");
    add_file(&mut fs, "/mnt/root/ok.txt", b"ok");
    fs.copy_error_once.insert("/mnt/root/flaky.txt".to_string(), 103);

    let mut e = Engine::new(cfg());
    e.start(Ok(()));
    drive(&mut e, &mut fs);

    assert_eq!(e.phase, Phase::Done);
    assert!(e.registry.is_failure(&"/mnt/root/flaky.txt".to_string()));
    assert!(!fs.dest_files.contains_key("/dest/flaky.txt"));
    assert_eq!(fs.dest_files.get("/dest/ok.txt"), Some(&b"ok".to_vec()));
    assert_eq!(fs.unmounts, 1);
}

#[test]
fn invalid_argument_on_copy_earns_one_repaired_retry() {
    let mut fs = sim_fs();
    add_dir(&mut fs, "/mnt/root", &["/mnt/root/odd.txt"]);
    add_file(&mut fs, "/mnt/root/odd.txt", b"odd");
    fs.copy_error_once.insert("/mnt/root/odd.txt".to_string(), 22);

    let mut e = Engine::new(cfg());
    e.start(Ok(()));
    drive(&mut e, &mut fs);

    assert_eq!(e.phase, Phase::Done);
    assert_eq!(fs.copies, 1);
    assert_eq!(fs.dest_files.get("/dest/odd.txt"), Some(&b"odd".to_vec()));
    assert!(fs.targets.iter().any(|(ph, _)| *ph == Phase::AwaitExistsRetry));
    assert!(fs.targets.iter().any(|(ph, _)| *ph == Phase::AwaitCopyRetry));
}

#[test]
fn invalid_argument_on_create_earns_one_repaired_retry() {
    let mut fs = sim_fs();
    add_dir(&mut fs, "/mnt/root", &["/mnt/root/D"]);
    add_dir(&mut fs, "/mnt/root/D", &["/mnt/root/D/f.txt"]);
    add_file(&mut fs, "/mnt/root/D/f.txt", b"f");
    fs.create_error_once.insert("/dest/D".to_string(), 22);

    let mut e = Engine::new(cfg());
    e.start(Ok(()));
    drive(&mut e, &mut fs);

    assert_eq!(e.phase, Phase::Done);
    assert!(fs.targets.iter().any(|(ph, _)| *ph == Phase::AwaitCreateRetry));
    assert_eq!(fs.dest_files.get("/dest/D/f.txt"), Some(&b"f".to_vec()));
}

#[test]
fn unknown_copy_error_aborts_the_run() {
    let mut fs = sim_fs();
    add_dir(&mut fs, "/mnt/root", &["/mnt/root/a.txt"]);
    add_file(&mut fs, "/mnt/root/a.txt", b"a");
    fs.copy_error_once.insert("/mnt/root/a.txt".to_string(), 13);

    let mut e = Engine::new(cfg());
    e.start(Ok(()));
    drive(&mut e, &mut fs);

    assert_eq!(e.phase, Phase::Aborted);
}
