//! What the user sees in the headset while no stream is running.

use crate::packets::Version;
use vstd::prelude::*;

verus! {

pub const INITIAL_MESSAGE: &'static str =
    "Searching for server...\nOpen ALVR on your PC then click \"Trust\"\nnext to the client entry";

pub const NETWORK_UNREACHABLE_MESSAGE: &'static str = "Cannot connect to the internet";

pub const INCOMPATIBLE_VERSIONS_MESSAGE: &'static str =
    "Server and client have\nincompatible types.\nPlease update either the app\non the PC or on the headset";

pub const STREAM_STARTING_MESSAGE: &'static str = "The stream will begin soon\nPlease wait...";

pub const SERVER_RESTART_MESSAGE: &'static str = "The server is restarting\nPlease wait...";

pub const SERVER_DISCONNECTED_MESSAGE: &'static str = "The server has disconnected.";

pub const LOADING_TEXTURE_WIDTH: usize = 1280;

pub const LOADING_TEXTURE_HEIGHT: usize = 720;

/// The number of bytes of the texture, four for each pixel.
pub const LOADING_TEXTURE_BYTES: usize = 3_686_400;

/// The text of the lobby: the version and the hostname above a message.
pub open spec fn lobby_text(
    version: Seq<char>,
    hostname: Seq<char>,
    message: Seq<char>,
) -> Seq<char> {
    "ALVR v"@ + version + "\nhostname: "@ + hostname + "\n \n"@ + message
}

/// The text of the lobby: the version and the hostname above a message.
pub fn lobby_message(version: &Version, hostname: &str, message: &str) -> (res: String)
    ensures
        res@ == lobby_text(version.text(), hostname@, message@),
{
    let mut res = "ALVR v".to_owned();
    res.append(version.to_text().as_str());
    res.append("\nhostname: ");
    res.append(hostname);
    res.append("\n \n");
    res.append(message);
    res
}

/// The message that reports why a connection failed.
pub open spec fn connection_error_text(cause: Seq<char>) -> Seq<char> {
    "Connection error:\n"@ + cause + "\nCheck the PC for more details"@
}

/// The message that reports why a connection failed.
pub fn connection_error_message(cause: &str) -> (res: String)
    ensures
        res@ == connection_error_text(cause@),
{
    "Connection error:\n".to_owned().concat(cause).concat("\nCheck the PC for more details")
}

/// The place in the texture of the alpha byte of the pixel in column `x` and row `y`.
pub open spec fn alpha_index(x: int, y: int) -> int {
    (y * LOADING_TEXTURE_WIDTH + x) * 4 + 3
}

/// One point of a glyph. `left` and `top` are the corner of the glyph in the texture, `x` and `y`
/// are relative to it, and `alpha` is how much of the point the glyph covers.
#[derive(Clone, Copy, Debug, PartialEq, Eq, Structural)]
pub struct GlyphPoint {
    pub left: usize,
    pub top: usize,
    pub x: u32,
    pub y: u32,
    pub alpha: u8,
}

impl GlyphPoint {
    /// The place in the texture of the alpha byte of the point.
    pub open spec fn index(self) -> int {
        alpha_index(self.left + self.x, self.top + self.y)
    }

    /// Whether the point falls in the texture.
    pub open spec fn is_covered(self) -> bool {
        self.index() < LOADING_TEXTURE_BYTES
    }

    /// Whether the point falls in the texture.
    pub fn covered(&self) -> (res: bool)
        ensures
            res == self.is_covered(),
    {
        if self.left >= LOADING_TEXTURE_BYTES || self.top >= LOADING_TEXTURE_BYTES {
            return false;
        }
        let column: u64 = self.left as u64 + self.x as u64;
        let row: u64 = self.top as u64 + self.y as u64;
        (row * 1280 + column) * 4 + 3 < LOADING_TEXTURE_BYTES as u64
    }
}

/// The picture of the lobby text: black, with the points of the glyphs in the alpha channel, each
/// drawn over those before it.
pub open spec fn picture_of(points: Seq<GlyphPoint>) -> Seq<u8>
    decreases points.len(),
{
    if points.len() == 0 {
        Seq::new(LOADING_TEXTURE_BYTES as nat, |i: int| 0u8)
    } else {
        picture_of(points.drop_last()).update(points.last().index(), points.last().alpha)
    }
}

/// Draws the points of the glyphs of the lobby text.
pub fn loading_texture(points: &Vec<GlyphPoint>) -> (res: Vec<u8>)
    requires
        forall|k: int| 0 <= k < points.len() ==> (#[trigger] points[k]).is_covered(),
    ensures
        res@ == picture_of(points@),
        res.len() == LOADING_TEXTURE_BYTES,
{
    let mut buffer: Vec<u8> = vec![0u8; LOADING_TEXTURE_BYTES];
    let mut k: usize = 0;
    assert(buffer@ =~= picture_of(points@.take(0)));
    while k < points.len()
        invariant
            k <= points.len(),
            buffer.len() == LOADING_TEXTURE_BYTES,
            buffer@ == picture_of(points@.take(k as int)),
            forall|j: int| 0 <= j < points.len() ==> (#[trigger] points[j]).is_covered(),
        decreases points.len() - k,
    {
        let point = points[k];
        assert(points[k as int].is_covered());
        let column: usize = point.x as usize + point.left;
        let row: usize = point.y as usize + point.top;
        let index: usize = (row * LOADING_TEXTURE_WIDTH + column) * 4 + 3;
        buffer.set(index, point.alpha);
        assert(points@.take(k + 1).drop_last() =~= points@.take(k as int));
        k = k + 1;
    }
    assert(points@.take(k as int) =~= points@);
    buffer
}

/// Only the alpha channel is drawn to: every other byte of the picture is 0.
pub proof fn law_only_alpha_is_drawn(points: Seq<GlyphPoint>, i: int)
    requires
        0 <= i < LOADING_TEXTURE_BYTES,
        i % 4 != 3,
        forall|k: int| 0 <= k < points.len() ==> (#[trigger] points[k]).is_covered(),
    ensures
        picture_of(points).len() == LOADING_TEXTURE_BYTES,
        picture_of(points)[i] == 0,
    decreases points.len(),
{
    if points.len() > 0 {
        assert forall|k: int| 0 <= k < points.drop_last().len() implies (
        #[trigger] points.drop_last()[k]).is_covered() by {
            assert(points.drop_last()[k] == points[k]);
        }
        law_only_alpha_is_drawn(points.drop_last(), i);
        assert(points.last() == points[points.len() - 1]);
    }
}

/// The picture shows the last point drawn at a place.
pub proof fn law_last_point_shows(points: Seq<GlyphPoint>, k: int)
    requires
        0 <= k < points.len(),
        forall|j: int| 0 <= j < points.len() ==> (#[trigger] points[j]).is_covered(),
        forall|j: int| k < j < points.len() ==> (#[trigger] points[j]).index() != points[k].index(),
    ensures
        picture_of(points).len() == LOADING_TEXTURE_BYTES,
        picture_of(points)[points[k].index()] == points[k].alpha,
    decreases points.len(),
{
    let front = points.drop_last();
    assert forall|j: int| 0 <= j < front.len() implies (#[trigger] front[j]).is_covered() by {
        assert(front[j] == points[j]);
    }
    assert(points.last() == points[points.len() - 1]);
    assert(points[k].is_covered());
    if k == points.len() - 1 {
        law_only_alpha_is_drawn(front, 0);
    } else {
        assert(front[k] == points[k]);
        assert forall|j: int| k < j < front.len() implies (#[trigger] front[j]).index()
            != front[k].index() by {
            assert(front[j] == points[j]);
        }
        law_last_point_shows(front, k);
    }
}

/// Where no point of a glyph falls, the picture is 0.
pub proof fn law_picture_is_black_beside_the_points(points: Seq<GlyphPoint>, i: int)
    requires
        0 <= i < LOADING_TEXTURE_BYTES,
        forall|k: int| 0 <= k < points.len() ==> (#[trigger] points[k]).is_covered(),
        forall|k: int| 0 <= k < points.len() ==> (#[trigger] points[k]).index() != i,
    ensures
        picture_of(points).len() == LOADING_TEXTURE_BYTES,
        picture_of(points)[i] == 0,
    decreases points.len(),
{
    if points.len() > 0 {
        let front = points.drop_last();
        assert forall|k: int| 0 <= k < front.len() implies (#[trigger] front[k]).is_covered()
            && front[k].index() != i by {
            assert(front[k] == points[k]);
        }
        law_picture_is_black_beside_the_points(front, i);
        assert(points.last() == points[points.len() - 1]);
    }
}

/// Every pixel of the texture has an alpha byte of its own, inside the texture.
pub proof fn law_pixels_do_not_overlap(x: int, y: int, other_x: int, other_y: int)
    requires
        0 <= x < LOADING_TEXTURE_WIDTH,
        0 <= y < LOADING_TEXTURE_HEIGHT,
        0 <= other_x < LOADING_TEXTURE_WIDTH,
        0 <= other_y < LOADING_TEXTURE_HEIGHT,
    ensures
        0 <= alpha_index(x, y) < LOADING_TEXTURE_BYTES,
        alpha_index(x, y) == alpha_index(other_x, other_y) ==> x == other_x && y == other_y,
{
}

/// The place of a pixel: rows follow each other, each has 1280 pixels of four bytes, and the alpha
/// byte is the last of the four.
pub proof fn law_pixels_follow_each_other(x: int, y: int)
    ensures
        alpha_index(0, 0) == 3,
        alpha_index(x + 1, y) == alpha_index(x, y) + 4,
        alpha_index(x, y + 1) == alpha_index(x, y) + 1280 * 4,
{
}

/// A point of a glyph is drawn at its place in the glyph, counted from where the glyph stands, to the
/// right and down.
pub proof fn law_points_move_with_their_glyph(point: GlyphPoint, moved: GlyphPoint)
    requires
        moved.x == point.x,
        moved.y == point.y,
    ensures
        moved.index() - point.index() == 4 * (moved.left - point.left) + 5120 * (moved.top
            - point.top),
        point.index() == alpha_index(point.left as int, point.top as int) + 4 * point.x + 5120
            * point.y,
        point.left + point.x < 1280 && point.top + point.y < 720 ==> point.is_covered(),
        point.top + point.y >= 720 ==> !point.is_covered(),
{
}

/// The text of the lobby begins with the version, names the hostname in the second line, and ends
/// with the message, after a line that is blank.
pub proof fn law_lobby_shows_version_hostname_and_message(
    version: Seq<char>,
    hostname: Seq<char>,
    message: Seq<char>,
)
    ensures
        ({
            let text = lobby_text(version, hostname, message);
            let v: int = version.len() as int;
            let h: int = hostname.len() as int;
            &&& text.len() == version.len() + hostname.len() + message.len() + 20
            &&& text.take(6) =~= seq!['A', 'L', 'V', 'R', ' ', 'v']
            &&& text.subrange(6, 6 + v) =~= version
            &&& text.subrange(17 + v, 17 + v + h) =~= hostname
            &&& text[6 + v] == '\n'
            &&& text.subrange(17 + v + h, 20 + v + h) =~= seq!['\n', ' ', '\n']
            &&& text.skip(text.len() - message.len()) =~= message
        }),
{
    reveal_strlit("ALVR v");
    reveal_strlit("\nhostname: ");
    reveal_strlit("\n \n");
}

/// The report of a failed connection has its cause in a line of its own.
pub proof fn law_error_report_holds_its_cause(cause: Seq<char>)
    ensures
        ({
            let text = connection_error_text(cause);
            &&& text.len() == cause.len() + 48
            &&& text.subrange(18, 18 + cause.len() as int) =~= cause
            &&& text[17] == '\n'
            &&& text[18 + cause.len() as int] == '\n'
        }),
{
    reveal_strlit("Connection error:\n");
    reveal_strlit("\nCheck the PC for more details");
}

/// The messages of the lobby.
pub proof fn law_lobby_messages_say_what_they_are_for()
    ensures
        INITIAL_MESSAGE@
            == "Searching for server...\nOpen ALVR on your PC then click \"Trust\"\nnext to the client entry"@,
        NETWORK_UNREACHABLE_MESSAGE@ == "Cannot connect to the internet"@,
        INCOMPATIBLE_VERSIONS_MESSAGE@
            == "Server and client have\nincompatible types.\nPlease update either the app\non the PC or on the headset"@,
        STREAM_STARTING_MESSAGE@ == "The stream will begin soon\nPlease wait..."@,
        SERVER_RESTART_MESSAGE@ == "The server is restarting\nPlease wait..."@,
        SERVER_DISCONNECTED_MESSAGE@ == "The server has disconnected."@,
{
}

/// The lobby shows the version, the hostname and the message that it is given, each in its own place.
pub proof fn law_lobby_message_shows_what_it_is_given(
    version: Version,
    hostname: &str,
    message: &str,
    res: String,
)
    requires
        call_ensures(lobby_message, (&version, hostname, message), res),
    ensures
        res@ == "ALVR v"@ + version.text() + "\nhostname: "@ + hostname@ + "\n \n"@ + message@,
{
    reveal_strlit("ALVR v");
    reveal_strlit("\nhostname: ");
    reveal_strlit("\n \n");
}

/// A failed connection is reported by its cause, between a heading and a hint.
pub proof fn law_connection_error_message_holds_its_cause(cause: &str, res: String)
    requires
        call_ensures(connection_error_message, (cause,), res),
    ensures
        res@ == "Connection error:\n"@ + cause@ + "\nCheck the PC for more details"@,
{
}

/// A point falls in the texture exactly where its alpha byte does: the texture has 720 rows of 1280
/// pixels of four bytes.
pub proof fn law_covered_points_have_a_byte(point: GlyphPoint, res: bool)
    requires
        call_ensures(GlyphPoint::covered, (&point,), res),
    ensures
        res <==> 4 * (1280 * (point.top + point.y) + point.left + point.x) + 3 < 1280 * 720 * 4,
{
}

/// The texture has 720 rows of 1280 pixels of four bytes. A point that no later one covers shows at
/// its place, as dark as it is, and a byte where no point falls is zero.
pub proof fn law_texture_shows_the_points(
    points: Vec<GlyphPoint>,
    res: Vec<u8>,
    k: int,
    i: int,
)
    requires
        call_ensures(loading_texture, (&points,), res),
        forall|j: int| 0 <= j < points@.len() ==> (#[trigger] points@[j]).is_covered(),
        0 <= i < res@.len(),
    ensures
        res@.len() == 1280 * 720 * 4,
        0 <= k < points@.len() && (forall|j: int|
            k < j < points@.len() ==> (#[trigger] points@[j]).index() != points@[k].index())
            ==> res@[4 * (1280 * (points@[k].top + points@[k].y) + points@[k].left + points@[k].x)
            + 3] == points@[k].alpha,
        (forall|j: int| 0 <= j < points@.len() ==> (#[trigger] points@[j]).index() != i) ==> res@[i]
            == 0,
{
    if 0 <= k < points@.len() && forall|j: int|
        k < j < points@.len() ==> (#[trigger] points@[j]).index() != points@[k].index() {
        law_last_point_shows(points@, k);
    }
    if forall|j: int| 0 <= j < points@.len() ==> (#[trigger] points@[j]).index() != i {
        law_picture_is_black_beside_the_points(points@, i);
    }
}

} // verus!
