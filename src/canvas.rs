use vstd::prelude::*;

verus! {

/// A JSON value held as it was read: edges and unknown node fields are carried,
/// never looked into.
#[verifier::external_type_specification]
#[verifier::external_body]
pub struct ExValue(serde_json::Value);

/// Grid step between columns, and the horizontal offset of column 0.
pub const COLUMN_STEP: i64 = 960;
pub const COLUMN_ORIGIN: i64 = -400;
/// Grid step between rows, and the vertical offset of row 0.
pub const ROW_STEP: i64 = 780;
pub const ROW_ORIGIN: i64 = -180;
/// Size of every node this library creates.
pub const NODE_WIDTH: i32 = 880;
pub const NODE_HEIGHT: i32 = 680;
/// Links captured less than this many nanoseconds apart share a row.
pub const TIME_BLOCK_NANOS: i128 = 300_000_000_000;

/// A moment: whole seconds since the Unix epoch, nanoseconds past them, and the
/// local offset from UTC in seconds at that moment.
#[derive(Clone, Copy, Debug, PartialEq, Eq, Structural)]
pub struct Timestamp {
    pub secs: i64,
    pub nanos: u32,
    pub offset_secs: i32,
}

/// One card of a canvas. Fields that this library does not know are kept, in
/// order, in `extra`.
pub struct Node {
    pub id: String,
    pub node_type: String,
    pub url: String,
    pub date: String,
    pub x: i32,
    pub y: i32,
    pub width: i32,
    pub height: i32,
    pub extra: Vec<(String, serde_json::Value)>,
}

/// A canvas document: its nodes in the order they were added, and its edges.
pub struct Canvas {
    pub nodes: Vec<Node>,
    pub edges: Vec<serde_json::Value>,
}

/// What came of reading the day's canvas file.
pub enum LoadedCanvas {
    /// There is no file yet.
    Missing,
    /// The file was read and parsed.
    Parsed(Canvas),
    /// The file was read but does not hold a canvas.
    Unparseable,
    /// The file could not be read.
    Unreadable,
}

/// Why a link could not be kept.
#[derive(Clone, Copy, Debug, PartialEq, Eq, Structural)]
pub enum SaveError {
    ClipboardUnavailable,
    FileSystemError,
    MalformedCanvasFile,
    SerializationError,
    /// The new node's coordinates do not fit the file's integer fields.
    CoordinateOverflow,
    /// The time given cannot be written as a calendar date.
    InvalidTimestamp,
}

/// The instant that an RFC 3339 text names, as seconds since the Unix epoch and
/// nanoseconds past them, or `None` where the text is not RFC 3339.
pub uninterp spec fn rfc3339_instant(s: Seq<char>) -> Option<(i64, u32)>;

/// The RFC 3339 text of a moment, written in the given offset.
pub uninterp spec fn rfc3339_text(secs: i64, nanos: u32, offset_secs: i32) -> Option<Seq<char>>;

/// The calendar date `YYYY-MM-DD` of a moment, in the given offset.
pub uninterp spec fn local_date_text(secs: i64, offset_secs: i32) -> Option<Seq<char>>;

/// Relies on chrono::DateTime::parse_from_rfc3339, then timestamp and
/// timestamp_subsec_nanos: the instant a valid text names, `None` on any other.
#[verifier::external_body]
fn parse_rfc3339(s: &str) -> (r: Option<(i64, u32)>)
    ensures
        r == rfc3339_instant(s@),
{
    match chrono::DateTime::parse_from_rfc3339(s) {
        Ok(d) => Some((d.timestamp(), d.timestamp_subsec_nanos())),
        Err(_) => None,
    }
}

/// Relies on chrono's DateTime::from_timestamp, FixedOffset::east_opt and
/// DateTime::to_rfc3339: `None` where the moment or the offset is out of range.
#[verifier::external_body]
fn format_rfc3339(secs: i64, nanos: u32, offset_secs: i32) -> (r: Option<String>)
    ensures
        match r {
            Some(t) => rfc3339_text(secs, nanos, offset_secs) == Some(t@),
            None => rfc3339_text(secs, nanos, offset_secs) is None,
        },
{
    let offset = chrono::FixedOffset::east_opt(offset_secs)?;
    let utc = chrono::DateTime::from_timestamp(secs, nanos)?;
    Some(utc.with_timezone(&offset).to_rfc3339())
}

/// Relies on chrono's DateTime::from_timestamp, FixedOffset::east_opt,
/// NaiveDateTime::checked_add_offset and the Display of NaiveDate, which writes
/// `YYYY-MM-DD`: `None` where the moment, the offset or the local time is out
/// of range.
#[verifier::external_body]
fn format_local_date(secs: i64, offset_secs: i32) -> (r: Option<String>)
    ensures
        match r {
            Some(t) => local_date_text(secs, offset_secs) == Some(t@),
            None => local_date_text(secs, offset_secs) is None,
        },
{
    let offset = chrono::FixedOffset::east_opt(offset_secs)?;
    let utc = chrono::DateTime::from_timestamp(secs, 0)?;
    let local = utc.naive_utc().checked_add_offset(offset)?;
    Some(local.date().to_string())
}

/// Relies on rand::random for a uniformly drawn `u64`; nothing is known of it.
#[verifier::external_body]
fn random_u64() -> (r: u64) {
    rand::random::<u64>()
}

/// Relies on std's `{:016x}` formatting: sixteen lowercase hex digits, most
/// significant first, zero-padded.
#[verifier::external_body]
fn format_hex16(v: u64) -> (r: String)
    ensures
        r@ == hex_digits(v as nat, 16),
{
    format!("{:016x}", v)
}

/// The lowercase hex digit of `d`.
pub open spec fn hex_char(d: nat) -> char {
    if d < 10 {
        (d + '0' as nat) as char
    } else {
        ((d - 10) + 'a' as nat) as char
    }
}

pub open spec fn is_hex_char(c: char) -> bool {
    ('0' <= c && c <= '9') || ('a' <= c && c <= 'f')
}

/// The `n` lowest hex digits of `v`, most significant first.
pub open spec fn hex_digits(v: nat, n: nat) -> Seq<char>
    decreases n,
{
    if n == 0 {
        seq![]
    } else {
        hex_digits(v / 16, (n - 1) as nat).push(hex_char(v % 16))
    }
}

/// A node identifier: sixteen lowercase hex digits.
pub open spec fn is_node_id(s: Seq<char>) -> bool {
    s.len() == 16 && forall|i: int| 0 <= i < s.len() ==> is_hex_char(#[trigger] s[i])
}

proof fn lemma_hex_digits(v: nat, n: nat)
    ensures
        hex_digits(v, n).len() == n,
        forall|i: int| 0 <= i < n ==> is_hex_char(#[trigger] hex_digits(v, n)[i]),
    decreases n,
{
    if n > 0 {
        lemma_hex_digits(v / 16, (n - 1) as nat);
        let d = v % 16;
        assert(is_hex_char(hex_char(d)));
    }
}

/// A fresh random node identifier.
pub fn random_id() -> (r: String)
    ensures
        is_node_id(r@),
        exists|v: u64| r@ == hex_digits(v as nat, 16),
{
    let v = random_u64();
    let r = format_hex16(v);
    proof {
        lemma_hex_digits(v as nat, 16);
    }
    r
}

/// Integer division that rounds toward zero, as machine division does.
pub open spec fn div_toward_zero(a: int, d: int) -> int {
    if a >= 0 {
        a / d
    } else {
        -((-a) / d)
    }
}

/// The grid cell `(row, col)` that a node at `(x, y)` stands in.
pub open spec fn cell_of(x: int, y: int) -> (int, int) {
    (div_toward_zero(y - ROW_ORIGIN, ROW_STEP as int), div_toward_zero(
        x - COLUMN_ORIGIN,
        COLUMN_STEP as int,
    ))
}

/// The pixel position `(x, y)` of grid cell `(row, col)`.
pub open spec fn pixel_of(row: int, col: int) -> (int, int) {
    (COLUMN_ORIGIN + col * COLUMN_STEP, ROW_ORIGIN + row * ROW_STEP)
}

/// Nanoseconds from instant `from` to moment `to`.
pub open spec fn nanos_between(from: (i64, u32), to: Timestamp) -> int {
    (to.secs - from.0) * 1_000_000_000 + (to.nanos - from.1)
}

/// Whether a link captured at `now` joins the time block of a node whose date
/// names the instant `last` (`None`: its date could not be read).
pub open spec fn same_block(last: Option<(i64, u32)>, now: Timestamp) -> bool {
    match last {
        Some(p) => nanos_between(p, now) < TIME_BLOCK_NANOS,
        None => false,
    }
}

/// Where the next link goes, given the nodes so far and the instant their last
/// node's date names: first cell when there is none; else right of the last node
/// within its time block, or the start of the row below it.
pub open spec fn placement(nodes: Seq<Node>, last: Option<(i64, u32)>, now: Timestamp) -> (
    int,
    int,
) {
    if nodes.len() == 0 {
        pixel_of(0, 0)
    } else {
        let (row, col) = cell_of(nodes.last().x as int, nodes.last().y as int);
        if same_block(last, now) {
            pixel_of(row, col + 1)
        } else {
            pixel_of(row + 1, 0)
        }
    }
}

/// The instant the last node's date names, if there is a last node.
pub open spec fn last_instant(nodes: Seq<Node>) -> Option<(i64, u32)> {
    if nodes.len() == 0 {
        None
    } else {
        rfc3339_instant(nodes.last().date@)
    }
}

pub open spec fn fits_i32(p: (int, int)) -> bool {
    i32::MIN <= p.0 <= i32::MAX && i32::MIN <= p.1 <= i32::MAX
}

fn div_toward_zero_i64(a: i64, d: i64) -> (r: i64)
    requires
        d > 0,
        a > i64::MIN,
    ensures
        r == div_toward_zero(a as int, d as int),
{
    if a >= 0 {
        ((a as u64) / (d as u64)) as i64
    } else {
        -((((-a) as u64) / (d as u64)) as i64)
    }
}

fn within_block(last: (i64, u32), now: &Timestamp) -> (r: bool)
    ensures
        r == (nanos_between(last, *now) < TIME_BLOCK_NANOS),
{
    let ds: i128 = now.secs as i128 - last.0 as i128;
    assert(-0x1_0000_0000_0000_0000 <= ds <= 0x1_0000_0000_0000_0000);
    assert(-0x1_0000_0000_0000_0000 * 1_000_000_000 <= ds * 1_000_000_000
        <= 0x1_0000_0000_0000_0000 * 1_000_000_000) by (nonlinear_arith)
        requires
            -0x1_0000_0000_0000_0000 <= ds <= 0x1_0000_0000_0000_0000,
    ;
    let diff: i128 = ds * 1_000_000_000 + (now.nanos as i128 - last.1 as i128);
    diff < TIME_BLOCK_NANOS
}

/// Where the next link goes on a canvas holding `nodes`, given the instant that
/// the last node's date names (`None` where it names none) and the capture time:
/// the pixel position of `placement`, or `None` where it does not fit the
/// file's integer fields.
pub fn next_position(nodes: &Vec<Node>, last: Option<(i64, u32)>, now: &Timestamp) -> (r: Option<
    (i32, i32),
>)
    ensures
        match r {
            Some(p) => fits_i32(placement(nodes@, last, *now)) && (p.0 as int, p.1 as int)
                == placement(nodes@, last, *now),
            None => !fits_i32(placement(nodes@, last, *now)),
        },
{
    if nodes.len() == 0 {
        return Some((COLUMN_ORIGIN as i32, ROW_ORIGIN as i32));
    }
    let prev = &nodes[nodes.len() - 1];
    let row = div_toward_zero_i64(prev.y as i64 - ROW_ORIGIN, ROW_STEP);
    let col = div_toward_zero_i64(prev.x as i64 - COLUMN_ORIGIN, COLUMN_STEP);
    let joins = match last {
        Some(p) => within_block(p, now),
        None => false,
    };
    let (new_row, new_col): (i64, i64) = if joins {
        (row, col + 1)
    } else {
        (row + 1, 0)
    };
    assert(-3_000_000 <= new_row <= 3_000_000 && -3_000_000 <= new_col <= 3_000_000);
    let x: i64 = COLUMN_ORIGIN + new_col * COLUMN_STEP;
    let y: i64 = ROW_ORIGIN + new_row * ROW_STEP;
    if x < i32::MIN as i64 || x > i32::MAX as i64 || y < i32::MIN as i64 || y > i32::MAX as i64 {
        None
    } else {
        Some((x as i32, y as i32))
    }
}

/// Builds the canvas file's name for the day of `now` in its local offset:
/// `YYYY-MM-DD.canvas`; `None` where the date cannot be written.
pub fn canvas_file_name(now: &Timestamp) -> (r: Option<String>)
    ensures
        match r {
            Some(name) => local_date_text(now.secs, now.offset_secs) is Some && name@
                == local_date_text(now.secs, now.offset_secs).unwrap() + ".canvas"@,
            None => local_date_text(now.secs, now.offset_secs) is None,
        },
{
    match format_local_date(now.secs, now.offset_secs) {
        Some(date) => Some(date.concat(".canvas")),
        None => None,
    }
}

impl Canvas {
    /// A canvas with no nodes and no edges.
    pub fn new() -> (r: Canvas)
        ensures
            r.nodes@ == Seq::<Node>::empty(),
            r.edges@ == Seq::<serde_json::Value>::empty(),
    {
        let r = Canvas { nodes: Vec::new(), edges: Vec::new() };
        assert(r.nodes@ =~= Seq::<Node>::empty());
        assert(r.edges@ =~= Seq::<serde_json::Value>::empty());
        r
    }
}

/// The node appended last is a link of `url` dated `date` at `pos`, of the fixed
/// size, with a fresh identifier and no other fields.
pub open spec fn is_new_link(n: Node, url: Seq<char>, date: Seq<char>, pos: (int, int)) -> bool {
    &&& is_node_id(n.id@)
    &&& n.node_type@ == "link"@
    &&& n.url@ == url
    &&& n.date@ == date
    &&& n.x as int == pos.0
    &&& n.y as int == pos.1
    &&& n.width == NODE_WIDTH
    &&& n.height == NODE_HEIGHT
    &&& n.extra@.len() == 0
}

/// Whether a link captured at `now` can be appended after `nodes`: its position
/// fits the file's integer fields and `now` can be written as RFC 3339.
pub open spec fn append_succeeds(nodes: Seq<Node>, now: Timestamp) -> bool {
    &&& fits_i32(placement(nodes, last_instant(nodes), now))
    &&& rfc3339_text(now.secs, now.nanos, now.offset_secs) is Some
}

/// The error of an append that does not succeed.
pub open spec fn append_error(nodes: Seq<Node>, now: Timestamp) -> SaveError {
    if !fits_i32(placement(nodes, last_instant(nodes), now)) {
        SaveError::CoordinateOverflow
    } else {
        SaveError::InvalidTimestamp
    }
}

/// `after` is the canvas of `nodes` and `edges` with one link of `url`, captured
/// at `now`, appended: everything that was there stays as it was.
pub open spec fn link_appended(
    nodes: Seq<Node>,
    edges: Seq<serde_json::Value>,
    after: Canvas,
    url: Seq<char>,
    now: Timestamp,
) -> bool {
    &&& after.edges@ == edges
    &&& after.nodes@.len() == nodes.len() + 1
    &&& after.nodes@.drop_last() == nodes
    &&& is_new_link(
        after.nodes@.last(),
        url,
        rfc3339_text(now.secs, now.nanos, now.offset_secs).unwrap(),
        placement(nodes, last_instant(nodes), now),
    )
}

/// Appending a link keeps every node already on the canvas, whatever its type,
/// at its place and as it was, and keeps every edge.
pub proof fn lemma_append_keeps_existing(
    nodes: Seq<Node>,
    edges: Seq<serde_json::Value>,
    after: Canvas,
    url: Seq<char>,
    now: Timestamp,
)
    requires
        link_appended(nodes, edges, after, url, now),
    ensures
        after.edges@ == edges,
        after.nodes@.subrange(0, nodes.len() as int) == nodes,
        forall|i: int| 0 <= i < nodes.len() ==> #[trigger] after.nodes@[i] == nodes[i],
{
    assert(after.nodes@.subrange(0, nodes.len() as int) =~= after.nodes@.drop_last());
}

/// Appends a link of `url` captured at `now` to `canvas`, placed after its last
/// node. All nodes and edges already there stay as they were. Fails, leaving
/// the canvas untouched, where the position does not fit the file's integer
/// fields or `now` cannot be written as RFC 3339.
pub fn append_link(canvas: &mut Canvas, url: &str, now: &Timestamp) -> (r: Result<(), SaveError>)
    ensures
        match r {
            Ok(()) => append_succeeds(old(canvas).nodes@, *now) && link_appended(
                old(canvas).nodes@,
                old(canvas).edges@,
                *final(canvas),
                url@,
                *now,
            ),
            Err(e) => {
                &&& !append_succeeds(old(canvas).nodes@, *now)
                &&& e == append_error(old(canvas).nodes@, *now)
                &&& final(canvas).nodes@ == old(canvas).nodes@
                &&& final(canvas).edges@ == old(canvas).edges@
            },
        },
{
    let last = if canvas.nodes.len() == 0 {
        None
    } else {
        parse_rfc3339(canvas.nodes[canvas.nodes.len() - 1].date.as_str())
    };
    let pos = match next_position(&canvas.nodes, last, now) {
        Some(p) => p,
        None => return Err(SaveError::CoordinateOverflow),
    };
    let date = match format_rfc3339(now.secs, now.nanos, now.offset_secs) {
        Some(d) => d,
        None => return Err(SaveError::InvalidTimestamp),
    };
    let id = random_id();
    let node = Node {
        id,
        node_type: String::from_str("link"),
        url: String::from_str(url),
        date,
        x: pos.0,
        y: pos.1,
        width: NODE_WIDTH,
        height: NODE_HEIGHT,
        extra: Vec::new(),
    };
    proof {
        reveal_strlit("link");
    }
    canvas.nodes.push(node);
    proof {
        assert(canvas.nodes@.drop_last() =~= old(canvas).nodes@);
    }
    Ok(())
}

/// The canvas to add a link to, from what reading the day's file gave: an empty
/// one where there is no file, the parsed one where there is. A file that does
/// not parse is an error, so that it is never replaced by an empty canvas.
pub fn canvas_to_update(loaded: LoadedCanvas) -> (r: Result<Canvas, SaveError>)
    ensures
        match loaded {
            LoadedCanvas::Missing => r matches Ok(c) && c.nodes@ == Seq::<Node>::empty() && c.edges@
                == Seq::<serde_json::Value>::empty(),
            LoadedCanvas::Parsed(c) => r matches Ok(d) && d.nodes@ == c.nodes@ && d.edges@
                == c.edges@,
            LoadedCanvas::Unparseable => r == Err::<Canvas, SaveError>(
                SaveError::MalformedCanvasFile,
            ),
            LoadedCanvas::Unreadable => r == Err::<Canvas, SaveError>(SaveError::FileSystemError),
        },
{
    match loaded {
        LoadedCanvas::Missing => Ok(Canvas::new()),
        LoadedCanvas::Parsed(c) => Ok(c),
        LoadedCanvas::Unparseable => Err(SaveError::MalformedCanvasFile),
        LoadedCanvas::Unreadable => Err(SaveError::FileSystemError),
    }
}

} // verus!
