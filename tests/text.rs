use shellmark::diag::Diag;
use shellmark::highlight::{colorize_match, group_runs, match_flags};
use shellmark::plug::{inner_content, plug_cmd, PlugCommand};
use shellmark::shell::{is_editor_set, Output, OutputType};
use shellmark::browse::Action;
use shellmark::cli::PlugCmd;
use shellmark::storage::{friendly_path, home_relative_text, simplify_path};
use shellmark::text::{chars_of, replace_all};

#[test]
fn friendly_paths() {
    assert_eq!(friendly_path("/home/u/proj", "/home/u"), "~/proj");
    assert_eq!(friendly_path("/home/u", "/home/u"), "~/");
    assert_eq!(friendly_path("/home/user2/x", "/home/u"), "/home/user2/x");
    assert_eq!(friendly_path("/etc", "/home/u"), "/etc");
    assert_eq!(friendly_path("rel/x", "/home/u"), "~/rel/x");
    assert_eq!(home_relative_text("/home/u/a/b", "/home/u/"), "~/a/b");
    assert_eq!(simplify_path("/a/b"), "/a/b");
}

#[test]
fn shell_output_of_actions() {
    let cd = Action::ChangeDirAction { dest: "/p/q".to_string() };
    assert_eq!(cd.to_output(OutputType::Plain, false), Some("/p/q".to_string()));
    assert_eq!(cd.to_output(OutputType::Posix, false), Some("cd /p/q".to_string()));
    assert_eq!(cd.to_output(OutputType::Fish, true), Some("cd /p/q".to_string()));
    assert_eq!(
        cd.to_output(OutputType::PowerShell, false),
        Some("Push-Location '/p/q'".to_string())
    );
    let ed = Action::OpenInEditorAction { dest: "/p/f.txt".to_string() };
    assert_eq!(ed.to_output(OutputType::Posix, true), Some("$EDITOR '/p/f.txt'".to_string()));
    assert_eq!(ed.to_output(OutputType::Plain, true), Some("/p/f.txt".to_string()));
    assert_eq!(
        ed.to_output(OutputType::Plain, false),
        Some("$EDITOR environment variable is not set".to_string())
    );
    assert_eq!(
        ed.to_output(OutputType::Fish, false),
        Some("echo \"\\$EDITOR environment variable is not set\"".to_string())
    );
    assert_eq!(
        ed.to_output(OutputType::PowerShell, false),
        Some("Push-Location '/p/f.txt'".to_string())
    );
}

#[test]
fn editor_variable() {
    assert!(is_editor_set(Some("vim")));
    assert!(!is_editor_set(Some("")));
    assert!(!is_editor_set(None));
    assert!(OutputType::default() == OutputType::Plain);
}

#[test]
fn plug_snippets_carry_the_name() {
    let p = plug_cmd(PlugCmd { name: "jj".to_string() });
    assert_eq!(p.to_output(OutputType::Plain), None);
    let posix = p.to_output(OutputType::Posix).unwrap();
    assert!(posix.starts_with("jj() {"));
    assert!(!posix.contains("{name}"));
    let fish = p.script(OutputType::Fish).unwrap();
    assert!(fish.starts_with("function jj\n"));
    let ps = PlugCommand { name: "go".to_string() }.to_output(OutputType::PowerShell).unwrap();
    assert!(ps.starts_with("function go {"));
    assert!(inner_content(OutputType::Posix).unwrap().contains("{name}"));
    assert!(inner_content(OutputType::Plain).is_none());
}

#[test]
fn replacing_text() {
    assert_eq!(replace_all("a{x}b{x}", "{x}", "--"), "a--b--");
    assert_eq!(replace_all("aaa", "aa", "b"), "ba");
    assert_eq!(replace_all("", "a", "b"), "");
    assert_eq!(chars_of("hé"), vec!['h', 'é']);
}

#[test]
fn diag_text() {
    let d = Diag { data_dir: "/data".to_string(), bookmark_count: 12 };
    assert_eq!(d.text(), "Data directory: /data\nBookmark count: 12\n");
    assert_eq!(d.to_output(OutputType::Posix), Some(d.text()));
    let d = Diag { data_dir: "/d".to_string(), bookmark_count: 0 };
    assert_eq!(d.text(), "Data directory: /d\nBookmark count: 0\n");
}

#[test]
fn unit_and_option_outputs() {
    assert_eq!(().to_output(OutputType::Posix), None);
    let none: Option<Diag> = None;
    assert_eq!(none.to_output(OutputType::Posix), None);
    let some = Some(Diag { data_dir: "/d".to_string(), bookmark_count: 3 });
    assert_eq!(some.to_output(OutputType::Plain), Some("Data directory: /d\nBookmark count: 3\n".to_string()));
}

#[test]
fn highlighted_runs() {
    assert_eq!(
        colorize_match("Proj", &vec!['p', 'r']),
        vec![(true, "Pr".to_string()), (false, "oj".to_string())]
    );
    assert_eq!(
        colorize_match("aXbx", &vec!['x']),
        vec![(false, "a".to_string()), (true, "X".to_string()), (false, "bx".to_string())]
    );
    assert_eq!(colorize_match("", &vec!['x']), vec![]);
    assert_eq!(colorize_match("ab", &vec![]), vec![(false, "ab".to_string())]);
}

#[test]
fn flags_and_runs() {
    let t = vec!["a".to_string(), "b".to_string(), "a".to_string()];
    let q = vec!["a".to_string(), "a".to_string()];
    assert_eq!(match_flags(&t, &q), vec![true, false, true]);
    assert_eq!(
        group_runs(&vec!['x', 'y', 'z'], &vec![true, true, false]),
        vec![(true, vec!['x', 'y']), (false, vec!['z'])]
    );
}
