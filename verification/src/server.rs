//! What the game server computes for its answers: the options of a new
//! game, the views of the time board and of the status of a game that are
//! sent to the browser, the files of the web interface it serves and its
//! answers on the socket.
use vstd::prelude::*;
use vstd::string::{StrSliceExecFns, StringExecFns};

verus! {

/// The options a client sends for a new game.
#[derive(Copy, Clone, Debug, PartialEq, Eq, Hash, Structural)]
pub struct Options {
    /// The seed of the game, if the client chose one.
    seed: Option<u64>,
}

impl Options {
    /// The seed of the options.
    pub closed spec fn spec_seed(&self) -> Option<u64> {
        self.seed
    }

    /// Options with the given seed.
    pub fn new(seed: Option<u64>) -> (options: Self)
        ensures
            options.spec_seed() == seed,
    {
        Options { seed }
    }

    /// The seed of the options.
    pub fn seed(&self) -> (seed: Option<u64>)
        ensures
            seed == self.spec_seed(),
    {
        self.seed
    }
}

/// The seed of a new game: the seed of the options the client sent, if it
/// sent options with a seed.
pub fn game_seed(payload: Option<Options>) -> (seed: Option<u64>)
    ensures
        seed == match payload {
            Some(options) => options.spec_seed(),
            None => None,
        },
{
    match payload {
        Some(options) => options.seed(),
        None => None,
    }
}

/// The bits of a time board tile that mark what lies on it.
#[derive(Copy, Clone, Debug, PartialEq, Eq, Hash, Structural)]
pub struct TimeBoardFlags {
    /// The bit of the first player's marker.
    pub player_1: u8,
    /// The bit of the second player's marker.
    pub player_2: u8,
    /// The bit of a special patch.
    pub special_patch: u8,
    /// The bit of a button income trigger.
    pub button_income_trigger: u8,
}

/// What lies on a tile of the time board.
#[derive(Copy, Clone, Debug, PartialEq, Eq, Hash, Structural)]
pub struct TimeBoardTile {
    /// The first player's marker is on the tile.
    pub player_1: bool,
    /// The second player's marker is on the tile.
    pub player_2: bool,
    /// A special patch lies on the tile.
    pub special_patch: bool,
    /// The tile triggers button income.
    pub button_income_trigger: bool,
}

/// Whether any of the bits of `flag` is set in `tile`.
pub open spec fn has_flag(tile: u8, flag: u8) -> bool {
    tile & flag != 0
}

/// What lies on a tile, read from its bits.
pub open spec fn tile_view(tile: u8, flags: TimeBoardFlags) -> TimeBoardTile {
    TimeBoardTile {
        player_1: has_flag(tile, flags.player_1),
        player_2: has_flag(tile, flags.player_2),
        special_patch: has_flag(tile, flags.special_patch),
        button_income_trigger: has_flag(tile, flags.button_income_trigger),
    }
}

/// The tiles that have a bit of `flag` set, in board order.
pub open spec fn flagged_tiles(tiles: Seq<u8>, flag: u8) -> Seq<u8>
    decreases tiles.len(),
{
    if tiles.len() == 0 {
        Seq::empty()
    } else if has_flag(tiles.last(), flag) {
        flagged_tiles(tiles.drop_last(), flag).push(tiles.last())
    } else {
        flagged_tiles(tiles.drop_last(), flag)
    }
}

/// What lies on a tile of the time board.
pub fn describe_tile(tile: u8, flags: TimeBoardFlags) -> (view: TimeBoardTile)
    ensures
        view == tile_view(tile, flags),
{
    TimeBoardTile {
        player_1: tile & flags.player_1 != 0,
        player_2: tile & flags.player_2 != 0,
        special_patch: tile & flags.special_patch != 0,
        button_income_trigger: tile & flags.button_income_trigger != 0,
    }
}

/// What lies on each tile of the time board, in board order.
pub fn describe_time_board(tiles: &[u8], flags: TimeBoardFlags) -> (board: Vec<TimeBoardTile>)
    ensures
        board@.len() == tiles@.len(),
        forall|i: int| 0 <= i < tiles@.len() ==> #[trigger] board@[i] == tile_view(tiles@[i], flags),
{
    let mut board: Vec<TimeBoardTile> = Vec::new();
    for i in 0..tiles.len()
        invariant
            board@.len() == i,
            forall|j: int| 0 <= j < i ==> #[trigger] board@[j] == tile_view(tiles@[j], flags),
    {
        board.push(describe_tile(tiles[i], flags));
    }
    board
}

/// The tiles that have a bit of `flag` set (the special patches or the
/// button income triggers of the time board), in board order.
pub fn tiles_with_flag(tiles: &[u8], flag: u8) -> (flagged: Vec<u8>)
    ensures
        flagged@ == flagged_tiles(tiles@, flag),
{
    let mut flagged: Vec<u8> = Vec::new();
    for i in 0..tiles.len()
        invariant
            flagged@ == flagged_tiles(tiles@.subrange(0, i as int), flag),
    {
        assert(tiles@.subrange(0, i + 1).drop_last() =~= tiles@.subrange(0, i as int));
        if tiles[i] & flag != 0 {
            flagged.push(tiles[i]);
        }
    }
    assert(tiles@.subrange(0, tiles@.len() as int) =~= tiles@);
    flagged
}

/// The status of a game as the browser shows it: whose turn it is and who
/// reached the special tile and the goal first (players numbered 1 and 2).
#[derive(Copy, Clone, Debug, PartialEq, Eq, Hash, Structural)]
pub struct StatusFlags {
    /// The player whose turn it is.
    pub current_player: u8,
    /// The player who reached the special tile condition, if any.
    pub special_tile: Option<u8>,
    /// The player who reached the goal first, if any.
    pub first_goal: Option<u8>,
}

/// The number of the first of two players for which a condition holds.
pub open spec fn first_player_with(player_1: bool, player_2: bool) -> Option<u8> {
    if player_1 {
        Some(1)
    } else if player_2 {
        Some(2)
    } else {
        None
    }
}

impl StatusFlags {
    /// The status from the facts of the game: whether it is the first
    /// player's turn, which players reached the special tile condition and
    /// which reached the goal first (the first player wins a tie).
    pub fn of_game(
        is_player_1: bool,
        special_tile_player_1: bool,
        special_tile_player_2: bool,
        first_goal_player_1: bool,
        first_goal_player_2: bool,
    ) -> (status: Self)
        ensures
            status.current_player == if is_player_1 {
                1u8
            } else {
                2u8
            },
            status.special_tile == first_player_with(special_tile_player_1, special_tile_player_2),
            status.first_goal == first_player_with(first_goal_player_1, first_goal_player_2),
    {
        let special_tile = if special_tile_player_1 {
            Some(1u8)
        } else if special_tile_player_2 {
            Some(2u8)
        } else {
            None
        };
        let first_goal = if first_goal_player_1 {
            Some(1u8)
        } else if first_goal_player_2 {
            Some(2u8)
        } else {
            None
        };
        StatusFlags {
            current_player: if is_player_1 {
                1
            } else {
                2
            },
            special_tile,
            first_goal,
        }
    }
}

/// The path of the embedded file that a request path names: the request
/// path without its leading slashes.
pub open spec fn asset_path_of(request_path: Seq<char>) -> Seq<char>
    decreases request_path.len(),
{
    if request_path.len() > 0 && request_path[0] == '/' {
        asset_path_of(request_path.drop_first())
    } else {
        request_path
    }
}

/// The path of the embedded file that a request path names (see
/// `asset_path_of`).
pub fn asset_path(request_path: &str) -> (path: String)
    ensures
        path@ == asset_path_of(request_path@),
{
    let length = request_path.unicode_len();
    let mut start: usize = 0;
    assert(request_path@.subrange(0, length as int) =~= request_path@);
    while start < length && request_path.get_char(start) == '/'
        invariant
            length == request_path@.len(),
            start <= length,
            asset_path_of(request_path@) == asset_path_of(
                request_path@.subrange(start as int, length as int),
            ),
        decreases length - start,
    {
        proof {
            let rest = request_path@.subrange(start as int, length as int);
            assert(rest.drop_first() =~= request_path@.subrange(start + 1, length as int));
        }
        start += 1;
    }
    let rest = request_path.substring_char(start, length);
    String::from_str(rest)
}

/// The content type that `mime_guess` guesses from the extension of a path,
/// `application/octet-stream` when it knows none.
pub uninterp spec fn guessed_content_type(path: Seq<char>) -> Seq<char>;

/// The content type of a file, `mime_guess::from_path(path)
/// .first_or_octet_stream()`: a table lookup by extension (named, not
/// written out).
#[verifier::external_body]
fn content_type(path: &str) -> (mime: String)
    ensures
        mime@ == guessed_content_type(path@),
{
    mime_guess::from_path(path).first_or_octet_stream().to_string()
}

/// How a request for a file of the web interface is answered.
#[derive(Clone, Debug, PartialEq, Eq, Hash)]
pub enum AssetAnswer {
    /// Send the embedded file at this path with this content type.
    File {
        /// The path of the embedded file.
        path: String,
        /// The content type guessed from the path.
        content_type: String,
    },
    /// `404 Not Found`.
    NotFound,
}

/// Answers a request for the embedded file at `path`: the file itself when
/// it exists, else the index page (the web interface routes the path
/// itself) when it exists, else `404 Not Found`; a file is sent with the
/// content type guessed from its path.
pub fn asset_answer(path: &str, requested_exists: bool, index_exists: bool) -> (answer: AssetAnswer)
    ensures
        requested_exists ==> (answer matches AssetAnswer::File { path: served, content_type }
            && served@ == path@ && content_type@ == guessed_content_type(path@)),
        !requested_exists && index_exists ==> (answer matches AssetAnswer::File {
            path: served,
            content_type,
        } && served@ == "index.html"@ && content_type@ == guessed_content_type("index.html"@)),
        !requested_exists && !index_exists ==> answer is NotFound,
{
    if requested_exists {
        AssetAnswer::File { path: String::from_str(path), content_type: content_type(path) }
    } else if index_exists {
        AssetAnswer::File {
            path: String::from_str("index.html"),
            content_type: content_type("index.html"),
        }
    } else {
        AssetAnswer::NotFound
    }
}

/// The kinds of messages that arrive on the socket of the interface.
#[derive(Copy, Clone, Debug, PartialEq, Eq, Hash, Structural)]
pub enum SocketMessage {
    /// A text message.
    Text,
    /// A binary message.
    Binary,
    /// A ping.
    Ping,
    /// A pong.
    Pong,
    /// The client closes the socket.
    Close,
}

/// What the server does with a message on the socket.
#[derive(Clone, Debug, PartialEq, Eq, Hash)]
pub enum SocketResponse {
    /// Send this text back.
    Reply(String),
    /// Do nothing.
    Ignore,
    /// Stop reading from the socket.
    Stop,
}

/// Answers a message on the socket: a text with `Hello!`, a close by
/// stopping; other messages are ignored.
pub fn socket_response(message: SocketMessage) -> (response: SocketResponse)
    ensures
        match message {
            SocketMessage::Text => response matches SocketResponse::Reply(text) && text@ == "Hello!"@,
            SocketMessage::Close => response is Stop,
            _ => response is Ignore,
        },
{
    match message {
        SocketMessage::Text => SocketResponse::Reply(String::from_str("Hello!")),
        SocketMessage::Close => SocketResponse::Stop,
        _ => SocketResponse::Ignore,
    }
}

/// The address the server listens on: every interface when it is public,
/// only the local one otherwise; the port defaults to 3000.
pub fn listen_address(port: Option<u16>, public: bool) -> (address: ([u8; 4], u16))
    ensures
        address.0@ == if public {
            seq![0u8, 0u8, 0u8, 0u8]
        } else {
            seq![127u8, 0u8, 0u8, 1u8]
        },
        address.1 == match port {
            Some(p) => p,
            None => 3000u16,
        },
{
    let port = match port {
        Some(p) => p,
        None => 3000,
    };
    let host: [u8; 4] = if public {
        [0, 0, 0, 0]
    } else {
        [127, 0, 0, 1]
    };
    proof {
        if public {
            assert(host@ =~= seq![0u8, 0u8, 0u8, 0u8]);
        } else {
            assert(host@ =~= seq![127u8, 0u8, 0u8, 1u8]);
        }
    }
    (host, port)
}

} // verus!
