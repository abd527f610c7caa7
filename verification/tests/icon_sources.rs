use std::cell::{Cell, RefCell};

use lan_mouse_tray::{
    find_local_icon, first_success, resolve, source_chain, IconSource, LocalIconFile, Resolved,
    ResourceName, ICON_RESOURCE_ORDINAL,
};

fn place(source: IconSource) -> usize {
    source_chain().iter().position(|s| *s == source).expect("every source is in the chain")
}

#[test]
fn chain_runs_from_resources_to_the_embedded_icon() {
    assert_eq!(
        source_chain(),
        vec![
            IconSource::NamedResource(ResourceName::MainIcon),
            IconSource::NamedResource(ResourceName::IdiIcon1),
            IconSource::NumberedResource,
            IconSource::LocalFile,
            IconSource::Embedded,
        ]
    );
}

#[test]
fn names_are_spelled_as_the_platform_expects() {
    assert_eq!(ResourceName::MainIcon.as_str(), "MAINICON");
    assert_eq!(ResourceName::IdiIcon1.as_str(), "IDI_ICON1");
    assert_eq!(LocalIconFile::Ico.file_name(), "de.feschber.LanMouse.ico");
    assert_eq!(LocalIconFile::Png.file_name(), "tray-icon.png");
    assert_eq!(ICON_RESOURCE_ORDINAL, 1);
}

#[test]
fn first_source_wins_when_all_load() {
    let found = resolve(|source| Some(place(source)));
    assert_eq!(
        found,
        Some(Resolved { source: IconSource::NamedResource(ResourceName::MainIcon), icon: 0 })
    );
}

#[test]
fn failing_sources_fall_through_to_the_next() {
    let chain = source_chain();
    for failing in 0..chain.len() {
        let found = resolve(|source| if place(source) < failing { None } else { Some(place(source)) });
        assert_eq!(found, Some(Resolved { source: chain[failing], icon: failing }));
    }
}

#[test]
fn embedded_icon_is_the_last_resort() {
    let found = resolve(|source| match source {
        IconSource::Embedded => Some("embedded"),
        _ => None,
    });
    assert_eq!(found, Some(Resolved { source: IconSource::Embedded, icon: "embedded" }));
}

#[test]
fn no_source_means_no_icon() {
    let found: Option<Resolved<u8>> = resolve(|_| None);
    assert_eq!(found, None);
}

#[test]
fn every_source_is_tried_once_and_in_order_when_all_fail() {
    let tried = RefCell::new(Vec::new());
    let found: Option<Resolved<()>> = resolve(|source| {
        tried.borrow_mut().push(source);
        None
    });
    assert_eq!(found, None);
    assert_eq!(tried.into_inner(), source_chain());
}

#[test]
fn nothing_is_tried_after_a_success() {
    let tried = RefCell::new(Vec::new());
    let found = resolve(|source| {
        tried.borrow_mut().push(source);
        if source == IconSource::NumberedResource {
            Some(7u8)
        } else {
            None
        }
    });
    assert_eq!(found, Some(Resolved { source: IconSource::NumberedResource, icon: 7 }));
    assert_eq!(
        tried.into_inner(),
        vec![
            IconSource::NamedResource(ResourceName::MainIcon),
            IconSource::NamedResource(ResourceName::IdiIcon1),
            IconSource::NumberedResource,
        ]
    );
}

#[test]
fn a_later_success_does_not_beat_an_earlier_one() {
    let found = resolve(|source| match source {
        IconSource::LocalFile => Some('f'),
        IconSource::Embedded => Some('e'),
        _ => None,
    });
    assert_eq!(found, Some(Resolved { source: IconSource::LocalFile, icon: 'f' }));
}

#[test]
fn first_success_reports_index_and_value() {
    let candidates = vec![3u32, 8, 5, 12];
    assert_eq!(first_success(&candidates, |n| if n > 4 { Some(n * 10) } else { None }), Some((1, 80)));
    assert_eq!(first_success(&candidates, |n| if n > 10 { Some(n) } else { None }), Some((3, 12)));
    assert_eq!(first_success(&candidates, |n| if n > 20 { Some(n) } else { None }), None);
    assert_eq!(first_success(&candidates, |n| Some(n)), Some((0, 3)));
}

#[test]
fn first_success_of_nothing_is_nothing() {
    let calls = Cell::new(0);
    let none: Vec<u8> = Vec::new();
    let found = first_success(&none, |n| {
        calls.set(calls.get() + 1);
        Some(n)
    });
    assert_eq!(found, None);
    assert_eq!(calls.get(), 0);
}

#[test]
fn local_icon_prefers_the_ico_file() {
    assert_eq!(find_local_icon(|_| true), Some(LocalIconFile::Ico));
    assert_eq!(find_local_icon(|file| file == LocalIconFile::Ico), Some(LocalIconFile::Ico));
    assert_eq!(find_local_icon(|file| file == LocalIconFile::Png), Some(LocalIconFile::Png));
    assert_eq!(find_local_icon(|_| false), None);
}

#[test]
fn png_is_not_looked_for_when_the_ico_is_there() {
    let asked = RefCell::new(Vec::new());
    let found = find_local_icon(|file| {
        asked.borrow_mut().push(file);
        true
    });
    assert_eq!(found, Some(LocalIconFile::Ico));
    assert_eq!(asked.into_inner(), vec![LocalIconFile::Ico]);
}
