//! The wallpaper groups that the search can use, and the sites that they generate.
use vstd::prelude::*;

use crate::traits::FromSymmetry;
use crate::transform::{lemma_parsed_plane_operation_is_wf, SymmetryError, Transform2};
use crate::CrystalFamily;
use vstd::string::StringSliceAdditionalSpecFns;

verus! {

/// A wallpaper group as it stands in the catalog: its name, its crystal family and the
/// symmetry operations of its general position.
#[derive(Clone)]
pub struct WallpaperGroup<'a> {
    pub name: &'a str,
    pub family: CrystalFamily,
    pub wyckoff_str: Vec<&'a str>,
}

/// One of the crystallographic wallpaper groups.
///
/// This is the highest level description of the symmetry operations of a crystal structure.
#[derive(Debug, Clone)]
pub struct Wallpaper {
    pub name: String,
    pub family: CrystalFamily,
}

impl Wallpaper {
    pub fn new(group: &WallpaperGroup) -> (r: Wallpaper)
        ensures
            r.name@ == group.name@,
            r.family == group.family,
    {
        Wallpaper { name: group.name.to_owned(), family: group.family }
    }
}

/// A set of symmetry-equivalent positions within a wallpaper group.
#[derive(Debug, Clone)]
pub struct WyckoffSite {
    pub letter: char,
    pub symmetries: Vec<Transform2>,
    pub num_rotations: u64,
    pub mirror_primary: bool,
    pub mirror_secondary: bool,
}

/// The error that reading `op` as a plane operation gives, when it gives one.
pub open spec fn error_of(op: Seq<u8>) -> SymmetryError {
    crate::transform::parse_spec(op, 2).get_Err_0()
}

pub open spec fn parse_fails(op: Seq<u8>) -> bool {
    crate::transform::parse_spec(op, 2).is_err()
}

impl WyckoffSite {
    /// The general position of `group`: one symmetry for each of its operations, in order.
    pub fn new(group: &WallpaperGroup) -> (r: Result<WyckoffSite, SymmetryError>)
        ensures
            match r {
                Ok(site) => {
                    &&& site.letter == 'a'
                    &&& site.num_rotations == 1
                    &&& !site.mirror_primary
                    &&& !site.mirror_secondary
                    &&& site.symmetries@.len() == group.wyckoff_str@.len()
                    &&& forall|i: int|
                        0 <= i < group.wyckoff_str@.len() ==> Transform2::parses_to(
                            #[trigger] group.wyckoff_str@[i].spec_bytes(),
                            Ok(site.symmetries@[i]),
                        )
                    &&& forall|i: int|
                        0 <= i < site.symmetries@.len() ==> (#[trigger] site.symmetries@[i]).wf()
                },
                Err(e) => exists|i: int|
                    0 <= i < group.wyckoff_str@.len() && parse_fails(
                        #[trigger] group.wyckoff_str@[i].spec_bytes(),
                    ) && error_of(group.wyckoff_str@[i].spec_bytes()) == e && forall|j: int|
                        0 <= j < i ==> !parse_fails(#[trigger] group.wyckoff_str@[j].spec_bytes()),
            },
            r.is_err() <==> exists|i: int|
                0 <= i < group.wyckoff_str@.len() && parse_fails(
                    #[trigger] group.wyckoff_str@[i].spec_bytes(),
                ),
    {
        let mut symmetries: Vec<Transform2> = Vec::new();
        let mut i: usize = 0;
        while i < group.wyckoff_str.len()
            invariant
                i <= group.wyckoff_str@.len(),
                symmetries@.len() == i,
                forall|j: int|
                    0 <= j < i ==> Transform2::parses_to(
                        #[trigger] group.wyckoff_str@[j].spec_bytes(),
                        Ok(symmetries@[j]),
                    ),
                forall|j: int| 0 <= j < i ==> !parse_fails(#[trigger] group.wyckoff_str@[j].spec_bytes()),
                forall|j: int| 0 <= j < i ==> (#[trigger] symmetries@[j]).wf(),
            decreases group.wyckoff_str@.len() - i,
        {
            match Transform2::from_operations(group.wyckoff_str[i]) {
                Ok(t) => {
                    proof {
                        lemma_parsed_plane_operation_is_wf(group.wyckoff_str@[i as int].spec_bytes(), t);
                    }
                    symmetries.push(t);
                },
                Err(e) => {
                    return Err(e);
                },
            }
            i = i + 1;
        }
        Ok(
            WyckoffSite {
                letter: 'a',
                symmetries,
                num_rotations: 1,
                mirror_primary: false,
                mirror_secondary: false,
            },
        )
    }

    /// The number of symmetry-equivalent copies that the site generates.
    pub fn multiplicity(&self) -> (r: usize)
        ensures
            r == self.symmetries@.len(),
    {
        self.symmetries.len()
    }

    /// Which of the three free parameters of a position (x, y and orientation) the site
    /// leaves free: all of them for a general position.
    pub fn degrees_of_freedom(&self) -> (r: Vec<bool>)
        ensures
            r@ == seq![true, true, true],
    {
        vec![true, true, true]
    }
}

/// The names of the wallpaper groups in the catalog.
#[allow(non_camel_case_types)]
#[derive(Debug, Clone, Copy, PartialEq, Eq, Structural)]
pub enum WallpaperGroups {
    p1,
    p2,
    p1m1,
    p1g1,
    p2mm,
    p2mg,
    p2gg,
}

/// The catalog entry of each group: its name, its family and its operations.
pub open spec fn catalog_name(g: WallpaperGroups) -> Seq<char> {
    match g {
        WallpaperGroups::p1 => "p1"@,
        WallpaperGroups::p2 => "p2"@,
        WallpaperGroups::p1m1 => "p1m1"@,
        WallpaperGroups::p1g1 => "p1m1"@,
        WallpaperGroups::p2mm => "p2mm"@,
        WallpaperGroups::p2mg => "p2mg"@,
        WallpaperGroups::p2gg => "p2gg"@,
    }
}

pub open spec fn catalog_family(g: WallpaperGroups) -> CrystalFamily {
    match g {
        WallpaperGroups::p1 | WallpaperGroups::p2 => CrystalFamily::Monoclinic,
        _ => CrystalFamily::Orthorhombic,
    }
}

pub open spec fn catalog_operations(g: WallpaperGroups) -> Seq<Seq<char>> {
    match g {
        WallpaperGroups::p1 => seq!["x,y"@],
        WallpaperGroups::p2 => seq!["x,y"@, "-x,-y"@],
        WallpaperGroups::p1m1 => seq!["x,y"@, "-x,y"@],
        WallpaperGroups::p1g1 => seq!["x,y"@, "-x,y+1/2"@],
        WallpaperGroups::p2mm => seq!["x,y"@, "-x,-y"@, "-x,y"@, "x,-y"@],
        WallpaperGroups::p2mg => seq!["x,y"@, "-x, -y"@, "-x+1/2, y"@, "x+1/2, -y"@],
        WallpaperGroups::p2gg => seq!["x,y"@, "-x, -y"@, "-x+1/2, y+1/2"@, "x+1/2, -y+1/2"@],
    }
}

/// Looks up a wallpaper group in the catalog.
pub fn get_wallpaper_group<'a>(name: WallpaperGroups) -> (r: Result<WallpaperGroup<'a>, SymmetryError>)
    ensures
        r.is_ok(),
        r.unwrap().name@ == catalog_name(name),
        r.unwrap().family == catalog_family(name),
        r.unwrap().wyckoff_str@.map_values(|s: &str| s@) == catalog_operations(name),
{
    let group = match name {
        WallpaperGroups::p1 => WallpaperGroup {
            name: "p1",
            family: CrystalFamily::Monoclinic,
            wyckoff_str: vec!["x,y"],
        },
        WallpaperGroups::p2 => WallpaperGroup {
            name: "p2",
            family: CrystalFamily::Monoclinic,
            wyckoff_str: vec!["x,y", "-x,-y"],
        },
        WallpaperGroups::p1m1 => WallpaperGroup {
            name: "p1m1",
            family: CrystalFamily::Orthorhombic,
            wyckoff_str: vec!["x,y", "-x,y"],
        },
        WallpaperGroups::p1g1 => WallpaperGroup {
            name: "p1m1",
            family: CrystalFamily::Orthorhombic,
            wyckoff_str: vec!["x,y", "-x,y+1/2"],
        },
        WallpaperGroups::p2mm => WallpaperGroup {
            name: "p2mm",
            family: CrystalFamily::Orthorhombic,
            wyckoff_str: vec!["x,y", "-x,-y", "-x,y", "x,-y"],
        },
        WallpaperGroups::p2mg => WallpaperGroup {
            name: "p2mg",
            family: CrystalFamily::Orthorhombic,
            wyckoff_str: vec!["x,y", "-x, -y", "-x+1/2, y", "x+1/2, -y"],
        },
        WallpaperGroups::p2gg => WallpaperGroup {
            name: "p2gg",
            family: CrystalFamily::Orthorhombic,
            wyckoff_str: vec!["x,y", "-x, -y", "-x+1/2, y+1/2", "x+1/2, -y+1/2"],
        },
    };
    proof {
        assert(group.wyckoff_str@.map_values(|s: &str| s@) =~= catalog_operations(name));
    }
    Ok(group)
}

} // verus!
