use alvr_connection::lobby::{
    connection_error_message, loading_texture, lobby_message, GlyphPoint,
    INCOMPATIBLE_VERSIONS_MESSAGE, INITIAL_MESSAGE, LOADING_TEXTURE_BYTES,
    LOADING_TEXTURE_HEIGHT, LOADING_TEXTURE_WIDTH,
};
use alvr_connection::packets::Version;

fn version() -> Version {
    Version {
        major: 19,
        minor: 1,
        patch: 2,
        pre: "dev00".to_string(),
        build: String::new(),
    }
}

fn point(left: usize, top: usize, x: u32, y: u32, alpha: u8) -> GlyphPoint {
    GlyphPoint { left, top, x, y, alpha }
}

#[test]
fn lobby_names_version_and_hostname() {
    assert_eq!(
        lobby_message(&version(), "1234.client.alvr", "The server has disconnected."),
        "ALVR v19.1.2-dev00\nhostname: 1234.client.alvr\n \nThe server has disconnected."
    );
    assert_eq!(
        INITIAL_MESSAGE,
        "Searching for server...\nOpen ALVR on your PC then click \"Trust\"\nnext to the client entry"
    );
    assert_eq!(INCOMPATIBLE_VERSIONS_MESSAGE.lines().count(), 4);
}

#[test]
fn connection_errors_are_explained() {
    assert_eq!(
        connection_error_message("broken pipe"),
        "Connection error:\nbroken pipe\nCheck the PC for more details"
    );
}

#[test]
fn empty_text_leaves_the_texture_black() {
    let texture = loading_texture(&vec![]);
    assert_eq!(texture.len(), 1280 * 720 * 4);
    assert_eq!(texture.len(), LOADING_TEXTURE_BYTES);
    assert!(texture.iter().all(|byte| *byte == 0));
}

#[test]
fn points_are_drawn_in_the_alpha_channel() {
    let texture = loading_texture(&vec![
        point(10, 20, 3, 4, 200),
        point(0, 0, 0, 0, 1),
        point(1279, 719, 0, 0, 255),
    ]);
    assert_eq!(texture[((20 + 4) * 1280 + 10 + 3) * 4 + 3], 200);
    assert_eq!(texture[3], 1);
    assert_eq!(texture[LOADING_TEXTURE_BYTES - 1], 255);
    assert_eq!(texture.iter().filter(|byte| **byte != 0).count(), 3);
    assert!(texture.chunks(4).all(|pixel| pixel[0] == 0 && pixel[1] == 0 && pixel[2] == 0));
}

#[test]
fn later_points_are_drawn_over_earlier_ones() {
    let texture = loading_texture(&vec![point(5, 0, 0, 0, 7), point(0, 0, 5, 0, 9)]);
    assert_eq!(texture[5 * 4 + 3], 9);
}

#[test]
fn points_outside_the_texture_are_told_apart() {
    assert!(point(LOADING_TEXTURE_WIDTH - 1, LOADING_TEXTURE_HEIGHT - 1, 0, 0, 0).covered());
    assert!(point(LOADING_TEXTURE_WIDTH, 0, 0, 0, 0).covered());
    assert!(!point(LOADING_TEXTURE_WIDTH, LOADING_TEXTURE_HEIGHT - 1, 0, 0, 0).covered());
    assert!(!point(0, LOADING_TEXTURE_HEIGHT, 0, 0, 0).covered());
    assert!(!point(usize::MAX, 0, 1, 0, 0).covered());
    assert!(!point(0, usize::MAX, u32::MAX, u32::MAX, 0).covered());
}

#[test]
fn pixels_have_bytes_of_their_own() {
    let texture = loading_texture(&vec![point(0, 1, 0, 0, 1), point(1279, 0, 0, 0, 2)]);
    assert_eq!(texture[1280 * 4 + 3], 1);
    assert_eq!(texture[1279 * 4 + 3], 2);
}
