use synchrosonic::metadata::{authors_display, release_channel_label, release_channel_summary};

#[test]
fn authors_are_listed_without_blank_entries() {
    assert_eq!(authors_display("Ada Lovelace:Grace Hopper"), "Ada Lovelace, Grace Hopper");
    assert_eq!(authors_display("Ada Lovelace: :Grace Hopper:"), "Ada Lovelace, Grace Hopper");
    assert_eq!(authors_display(""), "");
}

#[test]
fn the_release_channel_follows_the_version() {
    assert_eq!(release_channel_label("1.0.0-rc.1"), "Release candidate");
    assert_eq!(release_channel_label("1.0.0-beta"), "Pre-release");
    assert_eq!(release_channel_label("1.0.0"), "Stable release");
    assert_eq!(
        release_channel_summary("1.0.0"),
        "This build is prepared as a stable public release."
    );
}
