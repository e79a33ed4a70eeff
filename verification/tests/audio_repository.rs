use yotibox::audio_repository::{first_with_extension, RepositoryError, SimpleAudioRepository};

fn repo() -> SimpleAudioRepository {
    SimpleAudioRepository::new(String::from("/srv/audio"))
}

#[test]
fn dir_of_an_id_is_under_the_base_dir() {
    assert_eq!(repo().dir_from_id("42"), "/srv/audio/42");
    assert_eq!(repo().dir_from_id("/tmp/x"), "/tmp/x");
    assert_eq!(SimpleAudioRepository::new(String::from("/srv/audio/")).dir_from_id("7"), "/srv/audio/7");
}

#[test]
fn readme_path_of_a_stub() {
    assert_eq!(repo().readme_path_for_id("42"), "/srv/audio/42/README.md");
    assert_eq!(repo().readme_path_for_id("/x/"), "/x/README.md");
    assert_eq!(SimpleAudioRepository::new(String::new()).dir_from_id("7"), "7");
    assert_eq!(SimpleAudioRepository::new(String::new()).readme_path_for_id("7"), "7/README.md");
}

#[test]
fn first_ogg_file_is_chosen() {
    let paths = vec![
        String::from("/srv/audio/42/README.md"),
        String::from("/srv/audio/42/b.ogg"),
        String::from("/srv/audio/42/a.ogg"),
    ];
    assert_eq!(repo().first_audio_file_in_dir("/srv/audio/42", &paths).unwrap(), 1);
}

#[test]
fn other_extensions_and_dot_files_are_skipped() {
    let paths = vec![
        String::from("/srv/audio/42/.ogg"),
        String::from("/srv/audio/42/song.OGG"),
        String::from("/srv/audio/42/song.ogg.mp3"),
        String::from("/srv/audio/42/ogg"),
    ];
    let r = repo().first_audio_file_in_dir("/srv/audio/42", &paths);
    assert!(matches!(r, Err(RepositoryError::NoAudioFiles(ref d)) if d == "/srv/audio/42"));
}

#[test]
fn empty_dir_has_no_audio() {
    let r = repo().first_audio_file_in_dir("/srv/audio/1", &vec![]);
    assert!(matches!(r, Err(RepositoryError::NoAudioFiles(ref d)) if d == "/srv/audio/1"));
}

#[test]
fn first_with_extension_finds_the_first() {
    let exts = vec![None, Some(String::from("md")), Some(String::from("ogg")), Some(String::from("ogg"))];
    assert_eq!(first_with_extension(&exts, "ogg"), Some(2));
    assert_eq!(first_with_extension(&exts, "mp3"), None);
}
