use packing::transform::{SymmetryError, Transform2};
use packing::wallpaper::{get_wallpaper_group, Wallpaper, WallpaperGroup, WallpaperGroups, WyckoffSite};
use packing::CrystalFamily;

fn create_wyckoff() -> WyckoffSite {
    WyckoffSite {
        letter: 'a',
        symmetries: vec![Transform2::identity()],
        num_rotations: 1,
        mirror_primary: false,
        mirror_secondary: false,
    }
}

#[test]
fn multiplicity() {
    let wyckoff = create_wyckoff();
    assert_eq!(wyckoff.multiplicity(), 1);
}

#[test]
fn catalog_entries() {
    let g = get_wallpaper_group(WallpaperGroups::p2).unwrap();
    assert_eq!(g.name, "p2");
    assert_eq!(g.family, CrystalFamily::Monoclinic);
    assert_eq!(g.wyckoff_str, vec!["x,y", "-x,-y"]);
    let g = get_wallpaper_group(WallpaperGroups::p2gg).unwrap();
    assert_eq!(g.family, CrystalFamily::Orthorhombic);
    assert_eq!(g.wyckoff_str.len(), 4);
}

#[test]
fn wallpaper_from_group() {
    let g = get_wallpaper_group(WallpaperGroups::p2mg).unwrap();
    let w = Wallpaper::new(&g);
    assert_eq!(w.name, "p2mg");
    assert_eq!(w.family, CrystalFamily::Orthorhombic);
}

#[test]
fn wyckoff_site_from_group() {
    let g = get_wallpaper_group(WallpaperGroups::p2mm).unwrap();
    let site = WyckoffSite::new(&g).unwrap();
    assert_eq!(site.multiplicity(), 4);
    assert_eq!(site.letter, 'a');
    assert_eq!(site.symmetries[0].rows, Transform2::identity().rows);
    assert_eq!(site.symmetries[1].rows[0].x, -1);
    assert_eq!(site.symmetries[1].rows[1].y, -1);
    assert_eq!(site.degrees_of_freedom(), vec![true, true, true]);
}

#[test]
fn wyckoff_site_reports_first_bad_operation() {
    let g = WallpaperGroup {
        name: "bad",
        family: CrystalFamily::Monoclinic,
        wyckoff_str: vec!["x,y", "x", "x,z"],
    };
    assert_eq!(WyckoffSite::new(&g).unwrap_err(), SymmetryError::NotEnoughDimensions);
}
