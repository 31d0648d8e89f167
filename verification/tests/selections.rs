use broot::app::sel_info::{accepted_by_answers, common_type_of, SelInfo};
use broot::app::selection::{Selection, SelectionType};
use broot::stage::Stage;
use broot::verb::FileTypeCondition;

fn sel(path: &str) -> Selection<'_> {
    Selection { path, line: 3, stype: SelectionType::File, is_exe: false }
}

#[test]
fn selection_types_respect_constraints() {
    assert!(SelectionType::File.respects(SelectionType::Any));
    assert!(SelectionType::File.respects(SelectionType::File));
    assert!(!SelectionType::File.respects(SelectionType::Directory));
    assert!(SelectionType::Any.is_respected_by(None));
    assert!(SelectionType::Directory.is_respected_by(Some(SelectionType::Directory)));
    assert!(!SelectionType::Directory.is_respected_by(Some(SelectionType::File)));
    assert!(!SelectionType::File.is_respected_by(None));
    assert_eq!(SelectionType::from_is_dir(true), SelectionType::Directory);
    assert_eq!(SelectionType::from_is_dir(false), SelectionType::File);
    assert_eq!(SelectionType::from("/"), SelectionType::Directory);
    assert_eq!(SelectionType::from("/surely/not/there/at/all.txt"), SelectionType::File);
}

#[test]
fn paths_have_extensions() {
    let ext = |p: &'static str| SelInfo::One(sel(p)).extension().map(|e| e.to_string());
    assert_eq!(ext("/a/b.txt"), Some("txt".to_string()));
    assert_eq!(ext("/a/b.tar.gz"), Some("gz".to_string()));
    assert_eq!(ext("/a/.bashrc"), None);
    assert_eq!(ext("/a/b"), None);
}

#[test]
fn counts_and_selections_agree() {
    let stage = Stage::from_paths(vec!["/x/a.rs".to_string(), "/y/b.rs".to_string()]);
    let infos = [SelInfo::NoSelection, SelInfo::One(sel("/x/a.rs")), SelInfo::More(&stage)];
    let counts: Vec<usize> = infos.iter().map(|i| i.count_paths()).collect();
    assert_eq!(counts, vec![0, 1, 2]);
    for info in &infos {
        assert_eq!(info.to_selections().len(), info.count_paths());
    }
    let sels = SelInfo::More(&stage).to_selections();
    assert_eq!(sels[1].path, "/y/b.rs");
    assert_eq!(sels[1].line, 0);
    assert_eq!(sels[1].stype, SelectionType::File);
}

#[test]
fn one_and_first_selections() {
    let stage = Stage::from_paths(vec!["/x/a.rs".to_string(), "/y/b.md".to_string()]);
    assert_eq!(SelInfo::One(sel("/p")).one_path(), Some("/p"));
    assert_eq!(SelInfo::More(&stage).one_path(), None);
    assert_eq!(SelInfo::NoSelection.one_sel().map(|s| s.line), None);
    assert_eq!(SelInfo::One(sel("/p")).one_sel().map(|s| s.line), Some(3));
    assert_eq!(SelInfo::More(&stage).first_sel().map(|s| s.path), Some("/x/a.rs"));
    assert_eq!(SelInfo::NoSelection.first_sel().map(|s| s.path), None);
    assert_eq!(SelInfo::from_path("/q/r").one_path(), Some("/q/r"));
}

#[test]
fn common_extension_and_type() {
    let same = Stage::from_paths(vec!["/x/a.rs".to_string(), "/y/b.rs".to_string()]);
    let different = Stage::from_paths(vec!["/x/a.rs".to_string(), "/y/b.md".to_string()]);
    let none = Stage::from_paths(vec!["/x/a".to_string(), "/y/b".to_string()]);
    assert_eq!(SelInfo::More(&same).extension(), Some("rs"));
    assert_eq!(SelInfo::More(&different).extension(), None);
    assert_eq!(SelInfo::More(&none).extension(), None);
    assert_eq!(SelInfo::One(sel("/p/q.toml")).extension(), Some("toml"));
    assert_eq!(SelInfo::NoSelection.extension(), None);
    assert_eq!(SelInfo::One(sel("/p")).common_stype(), Some(SelectionType::File));
    assert_eq!(SelInfo::NoSelection.common_stype(), None);
    let dirs = Stage::from_paths(vec!["/".to_string(), "/".to_string()]);
    assert_eq!(SelInfo::More(&dirs).common_stype(), Some(SelectionType::Directory));
}

#[test]
fn acceptance_by_conditions() {
    let stage = Stage::from_paths(vec!["/".to_string(), "/surely/not/there.rs".to_string()]);
    assert!(SelInfo::NoSelection.is_accepted_by(FileTypeCondition::File));
    assert!(SelInfo::More(&stage).is_accepted_by(FileTypeCondition::Any));
    assert!(!SelInfo::More(&stage).is_accepted_by(FileTypeCondition::Directory));
    assert!(SelInfo::One(sel("/")).is_accepted_by(FileTypeCondition::Directory));
    assert!(!FileTypeCondition::File.accepts_path("/"));
    assert_eq!(stage.len(), 2);
    assert!(!stage.is_empty());
    assert_eq!(stage.paths()[0], "/");
}

#[test]
fn decisions_on_disk_answers() {
    assert!(FileTypeCondition::Any.accepts(false, false));
    assert!(FileTypeCondition::Directory.accepts(true, false));
    assert!(!FileTypeCondition::Directory.accepts(false, true));
    assert!(FileTypeCondition::File.accepts(false, true));
    assert!(!FileTypeCondition::File.accepts(true, false));
    assert_eq!(FileTypeCondition::Any.disk_answers("/"), (false, false));
    assert_eq!(FileTypeCondition::Directory.disk_answers("/"), (true, false));
    assert_eq!(FileTypeCondition::File.disk_answers("/"), (false, false));
    assert!(accepted_by_answers(FileTypeCondition::Any, &vec![(false, false)]));
    assert!(accepted_by_answers(FileTypeCondition::File, &vec![]));
    assert!(accepted_by_answers(FileTypeCondition::Directory, &vec![(true, false), (true, false)]));
    assert!(!accepted_by_answers(FileTypeCondition::Directory, &vec![(true, false), (false, false)]));
    assert!(!accepted_by_answers(FileTypeCondition::File, &vec![(false, true), (false, false)]));
    assert_eq!(common_type_of(&vec![true, true]), Some(SelectionType::Directory));
    assert_eq!(common_type_of(&vec![false, false, false]), Some(SelectionType::File));
    assert_eq!(common_type_of(&vec![false, true]), None);
    assert_eq!(common_type_of(&vec![true]), Some(SelectionType::Directory));
    let mixed = Stage::from_paths(vec!["/".to_string(), "/surely/not/there.rs".to_string()]);
    assert_eq!(SelInfo::More(&mixed).common_stype(), None);
}
