use nif_render::dialogs::{
    DirDialogKind, FileDialogKind, ProjectFilesEntry, Stat, file_dialog_kind, get_dir_dialog,
    get_value_id_name, u32_decimal,
};

fn file(name: &str) -> ProjectFilesEntry {
    ProjectFilesEntry::File(name.to_string())
}

fn dir(name: &str) -> ProjectFilesEntry {
    ProjectFilesEntry::Directory(name.to_string())
}

#[test]
fn world_directory_is_recognized_by_its_two_files() {
    let entries = vec![file("terrain0.lf"), file("blockObj0.LBF"), dir("other")];
    assert_eq!(get_dir_dialog(&entries), Some(DirDialogKind::World));
}

#[test]
fn vehicles_directory_is_recognized_by_its_two_directories() {
    let entries = vec![dir("vehicle"), dir("Init"), file("readme.txt")];
    assert_eq!(get_dir_dialog(&entries), Some(DirDialogKind::Vehicles));
}

#[test]
fn world_markers_take_precedence_over_vehicle_markers() {
    let entries = vec![file("terrain0.lf"), file("blockObj0.LBF"), dir("vehicle"), dir("Init")];
    assert_eq!(get_dir_dialog(&entries), Some(DirDialogKind::World));
}

#[test]
fn directory_without_markers_gets_no_dialog() {
    assert_eq!(get_dir_dialog(&vec![file("terrain0.lf"), dir("Init")]), None);
    assert_eq!(get_dir_dialog(&Vec::new()), None);
}

#[test]
fn marker_names_are_matched_exactly() {
    // A directory named like the terrain file does not count as the file,
    // and the match is case sensitive.
    let entries = vec![dir("terrain0.lf"), file("blockobj0.lbf")];
    assert_eq!(get_dir_dialog(&entries), None);
}

#[test]
fn file_dialogs_are_routed_by_folded_stem_and_extension() {
    assert_eq!(
        file_dialog_kind("levelmodifier", Some("dat")),
        FileDialogKind::Levelmodifier
    );
    assert_eq!(
        file_dialog_kind("OldLevelModifier", Some("DAT")),
        FileDialogKind::Levelmodifier
    );
    assert_eq!(file_dialog_kind("car", Some("NIF")), FileDialogKind::Nif);
    assert_eq!(file_dialog_kind("terrain0", Some("lf")), FileDialogKind::Lf);
    assert_eq!(file_dialog_kind("blockObj0", Some("LBF")), FileDialogKind::Lbf);
    assert_eq!(file_dialog_kind("other", Some("dat")), FileDialogKind::Placeholder);
    assert_eq!(file_dialog_kind("notes", Some("txt")), FileDialogKind::Placeholder);
    assert_eq!(file_dialog_kind("noextension", None), FileDialogKind::Placeholder);
}

#[test]
fn dir_dialog_kinds_have_display_labels() {
    assert_eq!(DirDialogKind::World.name(), "World");
    assert_eq!(DirDialogKind::Vehicles.name(), "Vehicles");
}

#[test]
fn stats_have_display_labels() {
    assert_eq!(Stat::Accel.name(), "Acceleration");
    assert_eq!(Stat::Speed.name(), "Speed");
    assert_eq!(Stat::Dura.name(), "Durability");
    assert_eq!(Stat::Boost.name(), "Boost");
}

#[test]
fn known_value_channels_have_fixed_labels() {
    assert_eq!(get_value_id_name(2000), "Normal Speed");
    assert_eq!(get_value_id_name(2002), "Reverse Speed");
    assert_eq!(get_value_id_name(3003), "Drift Acceleration");
    assert_eq!(get_value_id_name(4018), "Unknown");
    assert_eq!(get_value_id_name(5002), "Boost Recharge Speed (sec)");
}

#[test]
fn unknown_value_channels_are_labelled_with_their_number() {
    assert_eq!(get_value_id_name(0), "0");
    assert_eq!(get_value_id_name(7), "7");
    assert_eq!(get_value_id_name(1234), "1234");
    assert_eq!(get_value_id_name(4019), "4019");
}

#[test]
fn decimal_formatting_handles_edges() {
    assert_eq!(u32_decimal(0), "0");
    assert_eq!(u32_decimal(10), "10");
    assert_eq!(u32_decimal(100000), "100000");
    assert_eq!(u32_decimal(u32::MAX), "4294967295");
}
