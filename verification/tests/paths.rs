use std::path::PathBuf;

use met::utils::cache::output_cache::{FileCache, WriteDirs};
use met::utils::paths::{add_extension, join};

fn std_join(a: &str, b: &str) -> String {
    PathBuf::from(a).join(b).to_str().unwrap().to_string()
}

#[test]
fn join_follows_std_paths() {
    for (a, b) in [("a", "b"), ("a/", "b"), ("", "b"), ("a", "/b"), ("a", ""), ("a/b", "c d"), ("/", "x")] {
        assert_eq!(join(a, b), std_join(a, b), "join({:?}, {:?})", a, b);
    }
    assert_eq!(join("a", "b"), "a/b");
    assert_eq!(join("a", "/b"), "/b");
}

#[test]
fn add_extension_appends() {
    assert_eq!(add_extension("@a:b.org", "png"), "@a:b.org.png");
    assert_eq!(add_extension("name", ""), "name");
    let mut p = PathBuf::from("dir/@a:b.org");
    p.add_extension("png");
    assert_eq!(join("dir", &add_extension("@a:b.org", "png")), p.to_str().unwrap());
}

#[test]
fn write_dirs_lay_out_a_room() {
    let d = WriteDirs::new("Room");
    assert_eq!(d.media_dir(), "Room/media");
    assert_eq!(d.text_file(), "Room/text/Room - messages.txt");
    assert_eq!(d.serialized_file(), "Room/events/Room - Events.json");
    assert_eq!(d.utd_file(), "Room/events/Room - Unable to decrypt.json");
    assert_eq!(
        WriteDirs::setup_dirs("Room"),
        vec![
            "Room/text",
            "Room/media",
            "Room/events",
            "Room/media/Files",
            "Room/media/Images",
            "Room/media/Video",
            "Room/media/Audio",
        ]
    );
}

#[test]
fn write_dirs_keep_dotted_room_names_whole() {
    let d = WriteDirs::new("v1.2");
    assert_eq!(d.text_file(), "v1.2/text/v1.2 - messages.txt");
    assert_eq!(d.serialized_file(), "v1.2/events/v1.2 - Events.json");
    assert_eq!(d.utd_file(), "v1.2/events/v1.2 - Unable to decrypt.json");
    assert_ne!(d.serialized_file(), d.utd_file());
    let expected = PathBuf::from("v1.2").join("events").join(format!("{} - Events.json", "v1.2"));
    assert_eq!(d.serialized_file(), expected.to_str().unwrap());
}

#[test]
fn file_cache_holds_the_room_dirs() {
    let c = FileCache::new("R".to_string());
    assert_eq!(c.user(), "R");
    assert_eq!(c.dirs().media_dir(), "R/media");
}

use met::ui::init::{assets_under, is_empty_asset_path, starts_with};
use met::utils::cache::output_cache::{write_outcome, FlushPlan, OutputProgress};

#[test]
fn asset_listing_by_prefix() {
    let paths = vec!["icons/a.svg".to_string(), "other/b.svg".to_string(), "icons/c.svg".to_string()];
    assert_eq!(assets_under(&paths, "icons/"), vec!["icons/a.svg".to_string(), "icons/c.svg".to_string()]);
    assert_eq!(assets_under(&paths, ""), paths);
    assert!(starts_with("icons/x", "icons"));
    assert!(!starts_with("ic", "icons"));
    assert!(is_empty_asset_path(""));
    assert!(!is_empty_asset_path("icons/x.svg"));
}

#[test]
fn flushes_rewrite_only_grown_files() {
    let mut p = OutputProgress::new();
    assert_eq!(p.plan(0, 0), FlushPlan { write_serialized: false, write_utd: false });
    assert_eq!(p.plan(5, 1), FlushPlan { write_serialized: true, write_utd: true });
    p.serialized_written(5);
    p.utd_written(1, false);
    assert_eq!(p.plan(5, 1), FlushPlan { write_serialized: false, write_utd: true });
    p.utd_written(1, true);
    assert_eq!(p.plan(5, 1), FlushPlan { write_serialized: false, write_utd: false });
}

#[test]
fn write_outcome_messages() {
    assert_eq!(write_outcome(Ok(()), Ok(())), Ok(()));
    assert_eq!(write_outcome(Ok(()), Err("f".to_string())), Err("Error finishing serialized write: f".to_string()));
    assert_eq!(write_outcome(Err("w".to_string()), Ok(())), Err("Error writing serialized write: w".to_string()));
    assert_eq!(write_outcome(Err("w".to_string()), Err("f".to_string())), Err("Errors writing to serialized file: w\nf".to_string()));
}
