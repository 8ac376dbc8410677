//! The frames of the protocol: what the server sends, and what a client may
//! send.
//!
//! A client frame is a JSON text. It is read with `serde_json`; what that
//! crate makes of a text is taken on trust and named by the three
//! uninterpreted functions below, and the rest is decided here.

use vstd::prelude::*;
use crate::engine::{board_names, names_board};
use crate::mark::PlayerMark;

verus! {

/// The number of sub-boards, and of cells in one.
pub const GRID_CELLS: i64 = 9;

/// The side length of a sub-board.
pub const GRID_SIDE: i64 = 3;

/// A column and a line inside a sub-board.
#[derive(Clone, Copy, Debug, PartialEq, Eq, Structural)]
pub struct GridPoint {
    pub x: i64,
    pub y: i64,
}

/// A frame from the server to a client.
#[derive(Clone, Debug, PartialEq, Eq)]
pub enum ServerFrame {
    /// Tells a connection its identity, right after the handshake.
    UserId { user_id: String },
    /// Tells a connection the state of its match and the side it plays.
    InitialMatchData { board: Vec<Vec<PlayerMark>>, turn: PlayerMark, mark: PlayerMark },
    /// Tells every connection of a match of a move that was accepted.
    Move { board: Vec<Vec<PlayerMark>>, turn: PlayerMark, active_grid: GridPoint },
}

impl ServerFrame {
    /// The value of the frame's `type` member on the wire.
    pub open spec fn kind_spec(self) -> Seq<char> {
        match self {
            ServerFrame::UserId { .. } => "user_id"@,
            ServerFrame::InitialMatchData { .. } => "initial_match_data"@,
            ServerFrame::Move { .. } => "move"@,
        }
    }

    /// The value of the frame's `type` member on the wire.
    pub fn kind(&self) -> (name: &'static str)
        ensures
            name@ == self.kind_spec(),
    {
        match self {
            ServerFrame::UserId { .. } => "user_id",
            ServerFrame::InitialMatchData { .. } => "initial_match_data",
            ServerFrame::Move { .. } => "move",
        }
    }
}

/// A number with its name, as it stands inside a member of a frame.
#[derive(Clone, Debug, PartialEq, Eq)]
pub struct WireNumber {
    pub name: &'static str,
    pub value: i64,
}

/// The value of one member of a frame on the wire.
#[derive(Clone, Debug, PartialEq, Eq)]
pub enum WireValue {
    /// A JSON string.
    Text(String),
    /// A JSON array of arrays of strings: the board, each cell by the wire
    /// name of its mark.
    Board(Vec<Vec<&'static str>>),
    /// A JSON object of numbers.
    Numbers(Vec<WireNumber>),
}

/// One member of the JSON object that a frame is on the wire.
#[derive(Clone, Debug, PartialEq, Eq)]
pub struct WireMember {
    pub name: &'static str,
    pub value: WireValue,
}

impl WireMember {
    /// Whether the member is the string `text` under `name`.
    pub open spec fn is_text(self, name: Seq<char>, text: Seq<char>) -> bool {
        self.name@ == name && self.value is Text && self.value->Text_0@ == text
    }

    /// Whether the member is `board`, by wire names, under `name`.
    pub open spec fn is_board(self, name: Seq<char>, board: Vec<Vec<PlayerMark>>) -> bool {
        self.name@ == name && self.value is Board && names_board(self.value->Board_0, board)
    }

    /// Whether the member is, under `name`, the object of `x` and `y` with
    /// the numbers of `point`.
    pub open spec fn is_point(self, name: Seq<char>, point: GridPoint) -> bool {
        &&& self.name@ == name
        &&& self.value is Numbers
        &&& self.value->Numbers_0.len() == 2
        &&& self.value->Numbers_0[0].name@ == "x"@
        &&& self.value->Numbers_0[0].value == point.x
        &&& self.value->Numbers_0[1].name@ == "y"@
        &&& self.value->Numbers_0[1].value == point.y
    }
}

impl ServerFrame {
    /// Whether `members` are the members of this frame on the wire, in
    /// their order: the frame's kind under `type`, then what the frame
    /// carries.
    pub open spec fn is_written_as(self, members: Seq<WireMember>) -> bool {
        match self {
            ServerFrame::UserId { user_id } => {
                &&& members.len() == 2
                &&& members[0].is_text("type"@, "user_id"@)
                &&& members[1].is_text("userId"@, user_id@)
            },
            ServerFrame::InitialMatchData { board, turn, mark } => {
                &&& members.len() == 4
                &&& members[0].is_text("type"@, "initial_match_data"@)
                &&& members[1].is_board("board"@, board)
                &&& members[2].is_text("turn"@, turn.wire_name())
                &&& members[3].is_text("mark"@, mark.wire_name())
            },
            ServerFrame::Move { board, turn, active_grid } => {
                &&& members.len() == 4
                &&& members[0].is_text("type"@, "move"@)
                &&& members[1].is_board("board"@, board)
                &&& members[2].is_text("turn"@, turn.wire_name())
                &&& members[3].is_point("activeGrid"@, active_grid)
            },
        }
    }

    /// The members of the JSON object that this frame is on the wire.
    pub fn members(&self) -> (members: Vec<WireMember>)
        ensures
            self.is_written_as(members@),
    {
        let mut members: Vec<WireMember> = Vec::new();
        members.push(WireMember { name: "type", value: WireValue::Text(self.kind().to_owned()) });
        match self {
            ServerFrame::UserId { user_id } => {
                members.push(WireMember { name: "userId", value: WireValue::Text(user_id.clone()) });
            },
            ServerFrame::InitialMatchData { board, turn, mark } => {
                members.push(WireMember { name: "board", value: WireValue::Board(board_names(board)) });
                members.push(WireMember { name: "turn", value: WireValue::Text(turn.as_str().to_owned()) });
                members.push(WireMember { name: "mark", value: WireValue::Text(mark.as_str().to_owned()) });
            },
            ServerFrame::Move { board, turn, active_grid } => {
                let mut numbers: Vec<WireNumber> = Vec::new();
                numbers.push(WireNumber { name: "x", value: active_grid.x });
                numbers.push(WireNumber { name: "y", value: active_grid.y });
                members.push(WireMember { name: "board", value: WireValue::Board(board_names(board)) });
                members.push(WireMember { name: "turn", value: WireValue::Text(turn.as_str().to_owned()) });
                members.push(WireMember { name: "activeGrid", value: WireValue::Numbers(numbers) });
            },
        }
        members
    }
}

/// What a client asks for with a `move` frame: the sub-board `grid`, and the
/// column `x` and line `y` inside it.
#[derive(Clone, Copy, Debug, PartialEq, Eq, Structural)]
pub struct MoveRequest {
    pub grid: i64,
    pub x: i64,
    pub y: i64,
}

/// A text frame from a client, as far as the broker tells frames apart.
#[derive(Clone, Copy, Debug, PartialEq, Eq, Structural)]
pub enum ClientFrame {
    /// A `move` frame with its three numbers.
    Move(MoveRequest),
    /// A JSON text whose `type` is not `move`.
    NotAMove,
    /// No JSON text, or a `move` frame that lacks one of its numbers.
    Malformed,
}

/// Makes `serde_json::Value` known as a type whose values are carried and
/// never looked into.
#[verifier::external_type_specification]
#[verifier::external_body]
pub struct ExJsonValue(serde_json::Value);

/// Makes `serde_json::Error` known as a type whose values are carried and
/// never looked into.
#[verifier::external_type_specification]
#[verifier::external_body]
pub struct ExJsonError(serde_json::Error);

/// The JSON value that `serde_json` reads from a text, where the text is
/// JSON.
pub uninterp spec fn json_document(text: Seq<char>) -> Option<serde_json::Value>;

/// The member `key` of a JSON value as a signed 64-bit integer: present where
/// the value is an object that holds `key` with an integer in that range.
pub uninterp spec fn json_int_member(doc: serde_json::Value, key: Seq<char>) -> Option<i64>;

/// The member `key` of a JSON value as a text: present where the value is an
/// object that holds `key` with a string.
pub uninterp spec fn json_text_member(doc: serde_json::Value, key: Seq<char>) -> Option<Seq<char>>;

/// Calls `serde_json::from_str` for a `serde_json::Value`. Trusted: the
/// result is a function of the text alone, an error exactly where the text is
/// no JSON.
#[verifier::external_body]
fn parse_document(text: &str) -> (doc: Result<serde_json::Value, serde_json::Error>)
    ensures
        match json_document(text@) {
            Some(value) => doc is Ok && doc->Ok_0 == value,
            None => doc is Err,
        },
{
    serde_json::from_str(text)
}

/// Indexes a `serde_json::Value` by a key and calls `Value::as_i64` on what
/// is there. Trusted: the result is a function of the value and the key
/// alone. Indexing gives null where the key is missing, and does not panic.
#[verifier::external_body]
fn int_member(doc: &serde_json::Value, key: &str) -> (number: Option<i64>)
    ensures
        number == json_int_member(*doc, key@),
{
    doc[key].as_i64()
}

/// Indexes a `serde_json::Value` by a key and calls `Value::as_str` on what
/// is there. Trusted: the result is a function of the value and the key
/// alone.
#[verifier::external_body]
fn text_member(doc: &serde_json::Value, key: &str) -> (text: Option<String>)
    ensures
        match json_text_member(*doc, key@) {
            Some(chars) => text is Some && text->Some_0@ == chars,
            None => text is None,
        },
{
    doc[key].as_str().map(String::from)
}

/// The frame that the members of a JSON object stand for: a move where the
/// `type` is `move` and the three numbers are there.
pub open spec fn frame_of_members(
    kind: Option<Seq<char>>,
    grid: Option<i64>,
    x: Option<i64>,
    y: Option<i64>,
) -> ClientFrame {
    if kind != Some("move"@) {
        ClientFrame::NotAMove
    } else if grid is Some && x is Some && y is Some {
        ClientFrame::Move(MoveRequest { grid: grid->Some_0, x: x->Some_0, y: y->Some_0 })
    } else {
        ClientFrame::Malformed
    }
}

/// The frame that a text from a client stands for.
pub open spec fn client_frame_of(text: Seq<char>) -> ClientFrame {
    match json_document(text) {
        None => ClientFrame::Malformed,
        Some(doc) => frame_of_members(
            json_text_member(doc, "type"@),
            json_int_member(doc, "grid"@),
            json_int_member(doc, "x"@),
            json_int_member(doc, "y"@),
        ),
    }
}

/// Tells the frame from the members that were read out of a JSON object.
pub fn classify_frame(kind: Option<String>, grid: Option<i64>, x: Option<i64>, y: Option<i64>) -> (frame: ClientFrame)
    ensures
        frame == frame_of_members(
            match kind {
                Some(k) => Some(k@),
                None => None,
            },
            grid,
            x,
            y,
        ),
{
    let is_move = match kind {
        Some(k) => k == "move".to_owned(),
        None => false,
    };
    if !is_move {
        return ClientFrame::NotAMove;
    }
    match (grid, x, y) {
        (Some(grid), Some(x), Some(y)) => ClientFrame::Move(MoveRequest { grid, x, y }),
        _ => ClientFrame::Malformed,
    }
}

/// Reads a text frame from a client.
pub fn decode_client_frame(text: &str) -> (frame: ClientFrame)
    ensures
        frame == client_frame_of(text@),
{
    match parse_document(text) {
        Err(_) => ClientFrame::Malformed,
        Ok(doc) => {
            let kind = text_member(&doc, "type");
            let grid = int_member(&doc, "grid");
            let x = int_member(&doc, "x");
            let y = int_member(&doc, "y");
            classify_frame(kind, grid, x, y)
        },
    }
}

impl MoveRequest {
    /// Whether the request names a cell: a sub-board from 0 to 8, a column
    /// and a line from 0 to 2.
    pub open spec fn in_range(self) -> bool {
        0 <= self.grid < GRID_CELLS && 0 <= self.x < GRID_SIDE && 0 <= self.y < GRID_SIDE
    }

    /// The cell of the board that the request names: the sub-board is the
    /// first coordinate, and the place inside it, counted line by line, the
    /// second.
    pub open spec fn cell_spec(self) -> Option<(usize, usize)> {
        if self.in_range() {
            Some((self.grid as usize, (self.y * GRID_SIDE + self.x) as usize))
        } else {
            None
        }
    }

    /// The request that names the cell `(col, row)` of the board.
    pub open spec fn naming(col: usize, row: usize) -> MoveRequest {
        MoveRequest { grid: col as i64, x: (row % 3) as i64, y: (row / 3) as i64 }
    }

    /// The cell of the board that the request names, if it names one.
    #[verifier::when_used_as_spec(cell_spec)]
    pub fn cell(self) -> (at: Option<(usize, usize)>)
        ensures
            at == self.cell_spec(),
    {
        if 0 <= self.grid && self.grid < GRID_CELLS && 0 <= self.x && self.x < GRID_SIDE && 0 <= self.y
            && self.y < GRID_SIDE {
            Some((self.grid as usize, (self.y * GRID_SIDE + self.x) as usize))
        } else {
            None
        }
    }

    /// The column and line inside the sub-board, as they are told to the
    /// clients after the move.
    pub fn active_grid(self) -> (point: GridPoint)
        ensures
            point == (GridPoint { x: self.x, y: self.y }),
    {
        GridPoint { x: self.x, y: self.y }
    }

    /// No two requests name one cell, every cell named lies on the board, and
    /// every cell of the board is named by a request.
    pub proof fn cells_and_requests_match(a: MoveRequest, b: MoveRequest, col: usize, row: usize)
        ensures
            a.cell_spec() is Some && a.cell_spec() == b.cell_spec() ==> a == b,
            a.cell_spec() is Some ==> a.cell_spec()->Some_0.0 < 9 && a.cell_spec()->Some_0.1 < 9,
            a.cell_spec() is Some ==> Self::naming(a.cell_spec()->Some_0.0, a.cell_spec()->Some_0.1) == a,
            col < 9 && row < 9 ==> Self::naming(col, row).cell_spec() == Some((col, row)),
    {
    }
}

} // verus!
