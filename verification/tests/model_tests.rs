use eternalmodmanager::mod_data::{ModData, ModMeta, SafetyStatus};
use eternalmodmanager::model::{Model, StructuralChange};

fn record(filename: &str, enabled: bool) -> ModData {
    ModData::new(filename, true, enabled, true, false, ModMeta::absent())
}

#[test]
fn replace_reports_a_full_range_change() {
    let mut model = Model::new();
    model.replace(vec![record("a.zip", true), record("b.zip", true)]);
    let change = model.replace(vec![record("c.zip", true)]);
    assert_eq!(change, StructuralChange { position: 0, removed: 2, added: 1 });
    assert_eq!(model.n_items(), 1);
    assert_eq!(model.item(0).unwrap().filename, "c.zip");
}

#[test]
fn toggle_all_keeps_positions_and_reports_no_structural_change() {
    let mut model = Model::new();
    model.replace(vec![
        record("a.zip", false),
        record("b.zip", true),
        record("c.zip", false),
    ]);
    model.toggle_all(true);
    assert_eq!(model.n_items(), 3);
    assert_eq!(model.item(0).unwrap().filename, "a.zip");
    assert_eq!(model.item(1).unwrap().filename, "b.zip");
    assert_eq!(model.item(2).unwrap().filename, "c.zip");
    for i in 0..3 {
        let item = model.item(i).unwrap();
        assert!(item.is_enabled);
        assert_eq!(item.status, SafetyStatus::SafeOnline);
    }
    model.toggle_all(false);
    assert_eq!(model.item(1).unwrap().filename, "b.zip");
    for i in 0..3 {
        assert!(!model.item(i).unwrap().is_enabled);
    }
}

#[test]
fn remove_reports_a_single_element_removal() {
    let mut model = Model::new();
    model.replace(vec![record("a.zip", true), record("b.zip", true)]);
    let change = model.remove(0).unwrap();
    assert_eq!(change, StructuralChange { position: 0, removed: 1, added: 0 });
    assert_eq!(model.n_items(), 1);
    assert_eq!(model.item(0).unwrap().filename, "b.zip");
}

#[test]
fn remove_out_of_bounds_is_refused() {
    let mut model = Model::new();
    model.replace(vec![record("a.zip", true)]);
    assert!(model.remove(5).is_none());
    assert_eq!(model.n_items(), 1);
}

#[test]
fn append_reports_an_insertion_at_the_end() {
    let mut model = Model::new();
    let first = model.append(record("a.zip", true));
    assert_eq!(first, StructuralChange { position: 0, removed: 0, added: 1 });
    let second = model.append(record("b.zip", true));
    assert_eq!(second, StructuralChange { position: 1, removed: 0, added: 1 });
    assert_eq!(model.n_items(), 2);
}
