use cargo_genezio::locate::{locate, DirEntryInfo};

fn entry(path: &str, is_file: bool, is_executable: bool) -> DirEntryInfo {
    DirEntryInfo { path: path.to_string(), is_file, is_executable }
}

#[test]
fn finds_the_one_executable() {
    let entries = vec![
        entry("out/notes.txt", true, false),
        entry("out/app", true, true),
        entry("out/app.d", true, false),
    ];
    assert_eq!(locate(&entries), Some(1));
}

#[test]
fn no_executable_is_none() {
    let entries = vec![
        entry("out/a.txt", true, false),
        entry("out/deps", false, true),
        entry("out/b.d", true, false),
    ];
    assert_eq!(locate(&entries), None);
    assert_eq!(locate(&Vec::new()), None);
}

#[test]
fn two_executables_take_the_first_in_given_order() {
    let entries = vec![entry("out/x", true, true), entry("out/y", true, true)];
    assert_eq!(locate(&entries), Some(0));
    let reversed = vec![entry("out/y", true, true), entry("out/x", true, true)];
    assert_eq!(locate(&reversed), Some(0));
    assert_eq!(reversed[0].path, "out/y");
    assert_eq!(locate(&entries), locate(&entries));
}

#[test]
fn directories_with_execute_bit_do_not_qualify() {
    let entries = vec![entry("out/build", false, true), entry("out/app", true, true)];
    assert_eq!(locate(&entries), Some(1));
}
