//! Which viewer handles a project file or directory.
//!
//! A file is routed by its (case-folded) stem and extension; a directory
//! is routed by which well-known entries it contains.  The level-modifier
//! viewer's labels for its stats and value channels live here too.

use vstd::prelude::*;

verus! {

/// The viewer a project directory opens in.
#[derive(Clone, Copy, PartialEq, Eq, Structural, Debug)]
pub enum DirDialogKind {
    World,
    Vehicles,
}

impl DirDialogKind {
    /// The kind's display label.
    pub fn name(&self) -> (r: &'static str)
        ensures
            *self == DirDialogKind::World ==> r@ == "World"@,
            *self == DirDialogKind::Vehicles ==> r@ == "Vehicles"@,
    {
        match self {
            DirDialogKind::World => "World",
            DirDialogKind::Vehicles => "Vehicles",
        }
    }
}

/// One entry of a project directory listing, by its final name component.
#[derive(Clone, PartialEq, Eq, Debug)]
pub enum ProjectFilesEntry {
    File(String),
    Directory(String),
}

/// Whether the listing holds a file with exactly this name.
pub open spec fn spec_has_file(entries: Seq<ProjectFilesEntry>, name: Seq<char>) -> bool {
    exists|i: int|
        0 <= i < entries.len() && ((#[trigger] entries[i]) matches ProjectFilesEntry::File(f)
            && f@ == name)
}

/// Whether the listing holds a directory with exactly this name.
pub open spec fn spec_has_dir(entries: Seq<ProjectFilesEntry>, name: Seq<char>) -> bool {
    exists|i: int|
        0 <= i < entries.len() && ((#[trigger] entries[i]) matches ProjectFilesEntry::Directory(d)
            && d@ == name)
}

/// Which viewer a directory listing opens in: the world viewer when the
/// terrain and block-object files are both present, else the vehicles
/// viewer when the vehicle and init directories are both present, else
/// none.
pub open spec fn spec_dir_dialog(entries: Seq<ProjectFilesEntry>) -> Option<DirDialogKind> {
    if spec_has_file(entries, "terrain0.lf"@) && spec_has_file(entries, "blockObj0.LBF"@) {
        Some(DirDialogKind::World)
    } else if spec_has_dir(entries, "vehicle"@) && spec_has_dir(entries, "Init"@) {
        Some(DirDialogKind::Vehicles)
    } else {
        None
    }
}

/// Whether the listing holds a file with exactly this name.
fn has_file(name: &String, entries: &Vec<ProjectFilesEntry>) -> (r: bool)
    ensures
        r == spec_has_file(entries@, name@),
{
    let n = entries.len();
    for i in 0..n
        invariant
            n == entries@.len(),
            forall|k: int|
                0 <= k < i ==> ((#[trigger] entries@[k]) matches ProjectFilesEntry::File(f)
                    ==> f@ != name@),
    {
        match &entries[i] {
            ProjectFilesEntry::File(f) => {
                if *f == *name {
                    proof {
                        assert(entries@[i as int] matches ProjectFilesEntry::File(g)
                            && g@ == name@);
                    }
                    return true;
                }
            },
            ProjectFilesEntry::Directory(_) => {
            },
        }
    }
    false
}

/// Whether the listing holds a directory with exactly this name.
fn has_dir(name: &String, entries: &Vec<ProjectFilesEntry>) -> (r: bool)
    ensures
        r == spec_has_dir(entries@, name@),
{
    let n = entries.len();
    for i in 0..n
        invariant
            n == entries@.len(),
            forall|k: int|
                0 <= k < i ==> ((#[trigger] entries@[k]) matches ProjectFilesEntry::Directory(d)
                    ==> d@ != name@),
    {
        match &entries[i] {
            ProjectFilesEntry::Directory(d) => {
                if *d == *name {
                    proof {
                        assert(entries@[i as int] matches ProjectFilesEntry::Directory(g)
                            && g@ == name@);
                    }
                    return true;
                }
            },
            ProjectFilesEntry::File(_) => {
            },
        }
    }
    false
}

/// Picks the viewer for a directory from its listing.
pub fn get_dir_dialog(entries: &Vec<ProjectFilesEntry>) -> (r: Option<DirDialogKind>)
    ensures
        r == spec_dir_dialog(entries@),
{
    let terrain = String::from_str("terrain0.lf");
    let block_obj = String::from_str("blockObj0.LBF");
    if has_file(&terrain, entries) && has_file(&block_obj, entries) {
        return Some(DirDialogKind::World);
    }
    let vehicle = String::from_str("vehicle");
    let init = String::from_str("Init");
    if has_dir(&vehicle, entries) && has_dir(&init, entries) {
        return Some(DirDialogKind::Vehicles);
    }
    None
}

/// The viewer a single project file opens in.
#[derive(Clone, Copy, PartialEq, Eq, Structural, Debug)]
pub enum FileDialogKind {
    Levelmodifier,
    Nif,
    Lf,
    Lbf,
    Placeholder,
}

/// The result of `str::to_lowercase`: Unicode lowercasing, a function of
/// the characters alone.
pub uninterp spec fn lower_of(s: Seq<char>) -> Seq<char>;

/// Relies on `str::to_lowercase`: the lowercased text, a function of the
/// input characters alone.
#[verifier::external_body]
fn lowercase(s: &str) -> (r: String)
    ensures
        r@ == lower_of(s@),
{
    s.to_lowercase()
}

/// Which viewer an already-lowercased stem and extension select: the
/// level-modifier viewer for `levelmodifier.dat` and `oldlevelmodifier.dat`,
/// else by extension `nif`, `lf` or `lbf`, else a placeholder.
pub open spec fn spec_file_dialog_kind_lowered(
    stem: Seq<char>,
    extension: Option<Seq<char>>,
) -> FileDialogKind {
    if extension == Some("dat"@) && (stem == "levelmodifier"@ || stem == "oldlevelmodifier"@) {
        FileDialogKind::Levelmodifier
    } else if extension == Some("nif"@) {
        FileDialogKind::Nif
    } else if extension == Some("lf"@) {
        FileDialogKind::Lf
    } else if extension == Some("lbf"@) {
        FileDialogKind::Lbf
    } else {
        FileDialogKind::Placeholder
    }
}

/// Picks the viewer for already-lowercased stem and extension.
pub fn file_dialog_kind_lowered(stem: &String, extension: Option<&String>) -> (r: FileDialogKind)
    ensures
        r == spec_file_dialog_kind_lowered(
            stem@,
            match extension {
                Some(e) => Some(e@),
                None => None,
            },
        ),
{
    match extension {
        Some(ext) => {
            let dat = String::from_str("dat");
            if *ext == dat {
                let levelmodifier = String::from_str("levelmodifier");
                let oldlevelmodifier = String::from_str("oldlevelmodifier");
                if *stem == levelmodifier || *stem == oldlevelmodifier {
                    return FileDialogKind::Levelmodifier;
                }
            }
            let nif = String::from_str("nif");
            if *ext == nif {
                return FileDialogKind::Nif;
            }
            let lf = String::from_str("lf");
            if *ext == lf {
                return FileDialogKind::Lf;
            }
            let lbf = String::from_str("lbf");
            if *ext == lbf {
                return FileDialogKind::Lbf;
            }
            FileDialogKind::Placeholder
        },
        None => FileDialogKind::Placeholder,
    }
}

/// Picks the viewer for a file from its stem and extension, case folded.
/// A file with no stem has no viewer and is not accepted here.
pub fn file_dialog_kind(file_stem: &str, extension: Option<&str>) -> (r: FileDialogKind)
    ensures
        r == spec_file_dialog_kind_lowered(
            lower_of(file_stem@),
            match extension {
                Some(e) => Some(lower_of(e@)),
                None => None,
            },
        ),
{
    let stem = lowercase(file_stem);
    match extension {
        Some(e) => {
            let ext = lowercase(e);
            file_dialog_kind_lowered(&stem, Some(&ext))
        },
        None => file_dialog_kind_lowered(&stem, None),
    }
}

/// One of the four stat families of the level-modifier table.
#[derive(Clone, Copy, PartialEq, Eq, Structural, Debug)]
pub enum Stat {
    Accel,
    Speed,
    Dura,
    Boost,
}

impl Stat {
    /// The stat's display label.
    pub fn name(&self) -> (r: &'static str)
        ensures
            *self == Stat::Accel ==> r@ == "Acceleration"@,
            *self == Stat::Speed ==> r@ == "Speed"@,
            *self == Stat::Dura ==> r@ == "Durability"@,
            *self == Stat::Boost ==> r@ == "Boost"@,
    {
        match self {
            Stat::Accel => "Acceleration",
            Stat::Speed => "Speed",
            Stat::Dura => "Durability",
            Stat::Boost => "Boost",
        }
    }
}

/// The decimal digit character for a value below ten.
pub open spec fn spec_digit_char(d: nat) -> char {
    if d == 0 {
        '0'
    } else if d == 1 {
        '1'
    } else if d == 2 {
        '2'
    } else if d == 3 {
        '3'
    } else if d == 4 {
        '4'
    } else if d == 5 {
        '5'
    } else if d == 6 {
        '6'
    } else if d == 7 {
        '7'
    } else if d == 8 {
        '8'
    } else {
        '9'
    }
}

/// The decimal digits of a number, most significant first.
pub open spec fn spec_decimal_digits(n: nat) -> Seq<char>
    decreases n,
{
    if n < 10 {
        seq![spec_digit_char(n)]
    } else {
        spec_decimal_digits(n / 10).push(spec_digit_char(n % 10))
    }
}

/// The one-character text of a decimal digit.
fn digit_str(d: u32) -> (r: &'static str)
    requires
        d < 10,
    ensures
        r@ == seq![spec_digit_char(d as nat)],
{
    proof {
        reveal_strlit("0");
        reveal_strlit("1");
        reveal_strlit("2");
        reveal_strlit("3");
        reveal_strlit("4");
        reveal_strlit("5");
        reveal_strlit("6");
        reveal_strlit("7");
        reveal_strlit("8");
        reveal_strlit("9");
    }
    match d {
        0 => "0",
        1 => "1",
        2 => "2",
        3 => "3",
        4 => "4",
        5 => "5",
        6 => "6",
        7 => "7",
        8 => "8",
        _ => "9",
    }
}

/// Formats a number in decimal.
pub fn u32_decimal(n: u32) -> (r: String)
    ensures
        r@ == spec_decimal_digits(n as nat),
    decreases n,
{
    if n < 10 {
        String::from_str(digit_str(n))
    } else {
        let mut prefix = u32_decimal(n / 10);
        prefix.append(digit_str(n % 10));
        prefix
    }
}

/// The display label of a value channel of the level-modifier table: a
/// fixed name for the known channel numbers, and the number itself in
/// decimal for the rest.
pub open spec fn spec_value_id_name(id: u32) -> Seq<char> {
    if id == 2000 {
        "Normal Speed"@
    } else if id == 2001 {
        "Boost Speed"@
    } else if id == 2002 {
        "Reverse Speed"@
    } else if id == 3000 {
        "Acceleration Gain"@
    } else if id == 3001 {
        "Forward Angular Drag"@
    } else if id == 3002 {
        "Reverse Angular Drag"@
    } else if id == 3003 {
        "Drift Acceleration"@
    } else if id == 4014 {
        "Speed loss modifier (?)"@
    } else if id == 4015 {
        "Wall Type Crash Protection in Battlezone"@
    } else if id == 4016 {
        "Traffic Type Crash Protection in Battlezone"@
    } else if id == 4017 {
        "Nature Type Crash Protection in Battlezone"@
    } else if id == 4018 {
        "Unknown"@
    } else if id == 5000 {
        "Boost Time"@
    } else if id == 5001 {
        "Boost Strength"@
    } else if id == 5002 {
        "Boost Recharge Speed (sec)"@
    } else {
        spec_decimal_digits(id as nat)
    }
}

/// Looks up the display label of a value channel.
pub fn get_value_id_name(id: u32) -> (r: String)
    ensures
        r@ == spec_value_id_name(id),
{
    match id {
        2000 => String::from_str("Normal Speed"),
        2001 => String::from_str("Boost Speed"),
        2002 => String::from_str("Reverse Speed"),
        3000 => String::from_str("Acceleration Gain"),
        3001 => String::from_str("Forward Angular Drag"),
        3002 => String::from_str("Reverse Angular Drag"),
        3003 => String::from_str("Drift Acceleration"),
        4014 => String::from_str("Speed loss modifier (?)"),
        4015 => String::from_str("Wall Type Crash Protection in Battlezone"),
        4016 => String::from_str("Traffic Type Crash Protection in Battlezone"),
        4017 => String::from_str("Nature Type Crash Protection in Battlezone"),
        4018 => String::from_str("Unknown"),
        5000 => String::from_str("Boost Time"),
        5001 => String::from_str("Boost Strength"),
        5002 => String::from_str("Boost Recharge Speed (sec)"),
        _ => u32_decimal(id),
    }
}

} // verus!
