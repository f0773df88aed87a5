//! The layout check that an Arrow IPC stream passes before it is decoded:
//! the stream opens with a schema of flat columns, and each later message is
//! an uncompressed record batch whose buffers lie inside its body.

use vstd::prelude::*;
use arrow::ipc::root_as_message;

verus! {

/// What arrow reads of the metadata of an IPC message (a flatbuffer
/// `Message`): its header type, its body length; for a record batch its
/// compression flag, row count, field nodes (length, null count) and
/// buffers (offset, length); for a schema its fields (type tag, whether
/// dictionary-encoded). What a message does not have is empty, false or 0.
pub struct IpcMessageModel {
    pub header: u8,
    pub body_length: i64,
    pub compressed: bool,
    pub length: i64,
    pub nodes: Seq<(i64, i64)>,
    pub buffers: Seq<(i64, i64)>,
    pub fields: Seq<(u8, bool)>,
}

/// What arrow's `root_as_message` reads of metadata bytes, `None` where the
/// flatbuffer does not verify.
pub uninterp spec fn ipc_message(meta: Seq<u8>) -> Option<IpcMessageModel>;

/// The header type and body length of the message whose metadata is
/// `data[start..start + len]` (arrow's `root_as_message`, `header_type`,
/// `bodyLength`); `None` where the flatbuffer does not verify.
#[verifier::external_body]
fn message_header(data: &[u8], start: usize, len: usize) -> (r: Option<(u8, i64)>)
    requires
        start + len <= data@.len(),
    ensures
        match r {
            None => ipc_message(data@.subrange(start as int, start + len)) is None,
            Some((h, b)) => ipc_message(data@.subrange(start as int, start + len)) matches Some(m)
                && m.header == h && m.body_length == b,
        },
{
    match root_as_message(&data[start..start + len]) {
        Ok(m) => Some((m.header_type().0, m.bodyLength())),
        Err(_) => None,
    }
}

/// Whether a record batch message is compressed, and its row count (its
/// `compression` and `length`).
#[verifier::external_body]
fn batch_shape(data: &[u8], start: usize, len: usize) -> (r: (bool, i64))
    requires
        start + len <= data@.len(),
        ipc_message(data@.subrange(start as int, start + len)) is Some,
    ensures
        r.0 == ipc_message(data@.subrange(start as int, start + len)).unwrap().compressed,
        r.1 == ipc_message(data@.subrange(start as int, start + len)).unwrap().length,
{
    match root_as_message(&data[start..start + len]).map(|m| m.header_as_record_batch()) {
        Ok(Some(b)) => (b.compression().is_some(), b.length()),
        _ => (false, 0),
    }
}

/// The field nodes (length, null count) of a record batch message.
#[verifier::external_body]
fn batch_nodes(data: &[u8], start: usize, len: usize) -> (r: Vec<(i64, i64)>)
    requires
        start + len <= data@.len(),
        ipc_message(data@.subrange(start as int, start + len)) is Some,
    ensures
        r@ == ipc_message(data@.subrange(start as int, start + len)).unwrap().nodes,
{
    match root_as_message(&data[start..start + len]).map(|m| m.header_as_record_batch().and_then(|b| b.nodes())) {
        Ok(Some(v)) => v.iter().map(|n| (n.length(), n.null_count())).collect(),
        _ => Vec::new(),
    }
}

/// The buffers (offset, length) of a record batch message.
#[verifier::external_body]
fn batch_buffers(data: &[u8], start: usize, len: usize) -> (r: Vec<(i64, i64)>)
    requires
        start + len <= data@.len(),
        ipc_message(data@.subrange(start as int, start + len)) is Some,
    ensures
        r@ == ipc_message(data@.subrange(start as int, start + len)).unwrap().buffers,
{
    match root_as_message(&data[start..start + len]).map(|m| m.header_as_record_batch().and_then(|b| b.buffers())) {
        Ok(Some(v)) => v.iter().map(|x| (x.offset(), x.length())).collect(),
        _ => Vec::new(),
    }
}

/// The fields (type tag, dictionary-encoded) of a schema message.
#[verifier::external_body]
fn schema_fields(data: &[u8], start: usize, len: usize) -> (r: Vec<(u8, bool)>)
    requires
        start + len <= data@.len(),
        ipc_message(data@.subrange(start as int, start + len)) is Some,
    ensures
        r@ == ipc_message(data@.subrange(start as int, start + len)).unwrap().fields,
{
    match root_as_message(&data[start..start + len]).map(|m| m.header_as_schema().and_then(|s| s.fields())) {
        Ok(Some(v)) => v.iter().map(|f| (f.type_type().0, f.dictionary().is_some())).collect(),
        _ => Vec::new(),
    }
}

/// The unsigned little-endian 32-bit word at `p`.
pub open spec fn le_u32(data: Seq<u8>, p: int) -> int {
    data[p] + 256 * data[p + 1] + 65536 * data[p + 2] + 16777216 * data[p + 3]
}

/// The signed little-endian 32-bit word at `p`.
pub open spec fn le_i32(data: Seq<u8>, p: int) -> int {
    let u = le_u32(data, p);
    if u >= 0x8000_0000 {
        u - 0x1_0000_0000
    } else {
        u
    }
}

/// Where a stream reader finds itself at byte `pos`.
pub enum Frame {
    /// The end of the stream: fewer than four bytes left, or a zero length.
    End,
    /// A length that cannot be read, is negative, or runs past the bytes.
    Broken,
    /// A message whose metadata is `meta_len` bytes from `meta_start`.
    Message { meta_start: int, meta_len: int },
}

/// The frame at byte `pos`: an optional continuation marker (`0xFFFFFFFF`),
/// then the metadata length as a signed little-endian word.
pub open spec fn frame_at(data: Seq<u8>, pos: int) -> Frame {
    if pos + 4 > data.len() {
        Frame::End
    } else {
        let len_pos = if le_u32(data, pos) == 0xFFFF_FFFF {
            pos + 4
        } else {
            pos
        };
        if len_pos + 4 > data.len() {
            Frame::Broken
        } else {
            let m = le_i32(data, len_pos);
            if m == 0 {
                Frame::End
            } else if m < 0 || len_pos + 4 + m > data.len() {
                Frame::Broken
            } else {
                Frame::Message { meta_start: len_pos + 4, meta_len: m }
            }
        }
    }
}

/// The column types decoded from flat buffers: null, integers, floats,
/// binary and UTF-8 strings (also large), booleans, decimals, dates,
/// times, timestamps, intervals, fixed-size binary and durations.
pub open spec fn flat_type_tag(t: u8) -> bool {
    (1 <= t && t <= 11) || t == 15 || t == 18 || t == 19 || t == 20
}

/// A schema message whose fields all have flat, not dictionary-encoded,
/// types.
pub open spec fn flat_schema(m: IpcMessageModel) -> bool {
    &&& m.header == 1
    &&& forall|i: int| 0 <= i < m.fields.len() ==> flat_type_tag(#[trigger] m.fields[i].0) && !m.fields[i].1
}

/// An uncompressed record batch message with non-negative counts whose
/// buffers lie inside its body.
pub open spec fn batch_in_bounds(m: IpcMessageModel) -> bool {
    &&& m.header == 3
    &&& !m.compressed
    &&& m.length >= 0
    &&& forall|i: int| 0 <= i < m.nodes.len() ==> 0 <= (#[trigger] m.nodes[i]).0 && 0 <= m.nodes[i].1
    &&& forall|i: int|
        0 <= i < m.buffers.len() ==> 0 <= (#[trigger] m.buffers[i]).0 && 0 <= m.buffers[i].1
            && m.buffers[i].0 + m.buffers[i].1 <= m.body_length
}

/// Every message from byte `pos` on that a reader decodes is a record batch
/// in bounds; reading stops at the end, at a broken frame, at metadata that
/// does not verify, or at a body that runs past the bytes.
pub open spec fn batches_checked(data: Seq<u8>, pos: int) -> bool
    decreases data.len() - pos,
{
    match frame_at(data, pos) {
        Frame::Message { meta_start, meta_len } => match ipc_message(
            data.subrange(meta_start, meta_start + meta_len),
        ) {
            Some(m) => {
                let next = meta_start + meta_len + m.body_length;
                if m.body_length < 0 || next > data.len() {
                    true
                } else {
                    batch_in_bounds(m) && batches_checked(data, next)
                }
            },
            None => true,
        },
        _ => true,
    }
}

/// The stream opens with a flat schema and its record batches are in
/// bounds (see `batches_checked`).
pub open spec fn stream_checked(data: Seq<u8>) -> bool {
    match frame_at(data, 0) {
        Frame::Message { meta_start, meta_len } => match ipc_message(
            data.subrange(meta_start, meta_start + meta_len),
        ) {
            Some(m) => {
                let next = meta_start + meta_len + m.body_length;
                if m.body_length < 0 || next > data.len() {
                    true
                } else {
                    flat_schema(m) && batches_checked(data, next)
                }
            },
            None => true,
        },
        _ => true,
    }
}

/// A frame as read (see `Frame`).
enum FrameRead {
    End,
    Broken,
    Message { meta_start: usize, meta_len: usize },
}

spec fn frame_read_model(f: FrameRead) -> Frame {
    match f {
        FrameRead::End => Frame::End,
        FrameRead::Broken => Frame::Broken,
        FrameRead::Message { meta_start, meta_len } => Frame::Message {
            meta_start: meta_start as int,
            meta_len: meta_len as int,
        },
    }
}

fn le_u32_at(data: &[u8], p: usize) -> (r: u64)
    requires
        p + 4 <= data@.len(),
    ensures
        r == le_u32(data@, p as int),
{
    data[p] as u64 + 256 * (data[p + 1] as u64) + 65536 * (data[p + 2] as u64) + 16777216 * (
    data[p + 3] as u64)
}

/// Reads the frame at byte `pos` (see `frame_at`).
fn read_frame(data: &[u8], pos: usize) -> (r: FrameRead)
    ensures
        frame_read_model(r) == frame_at(data@, pos as int),
{
    if data.len() < 4 || pos > data.len() - 4 {
        return FrameRead::End;
    }
    let len_pos = if le_u32_at(data, pos) == 0xFFFF_FFFF {
        if pos + 4 > data.len() - 4 {
            return FrameRead::Broken;
        }
        pos + 4
    } else {
        pos
    };
    let u = le_u32_at(data, len_pos);
    if u == 0 {
        return FrameRead::End;
    }
    if u >= 0x8000_0000 {
        return FrameRead::Broken;
    }
    if u > (data.len() - len_pos - 4) as u64 {
        return FrameRead::Broken;
    }
    FrameRead::Message { meta_start: len_pos + 4, meta_len: u as usize }
}

/// Whether the message at `data[start..start + len]` is a record batch in
/// bounds (see `batch_in_bounds`).
fn check_batch(data: &[u8], start: usize, len: usize, header: u8) -> (r: bool)
    requires
        start + len <= data@.len(),
        ipc_message(data@.subrange(start as int, start + len)) matches Some(m) && m.header == header
            && m.body_length >= 0,
    ensures
        ipc_message(data@.subrange(start as int, start + len)) matches Some(m) && r == batch_in_bounds(m),
{
    if header != 3 {
        return false;
    }
    let ghost m = ipc_message(data@.subrange(start as int, start + len)).unwrap();
    let (compressed, length) = batch_shape(data, start, len);
    if compressed || length < 0 {
        return false;
    }
    let body = match message_header(data, start, len) {
        Some((_, b)) => b,
        None => return false,
    };
    let nodes = batch_nodes(data, start, len);
    let mut i: usize = 0;
    while i < nodes.len()
        invariant
            i <= nodes@.len(),
            nodes@ == m.nodes,
            ipc_message(data@.subrange(start as int, start + len)) == Some(m),
            m.header == 3,
            !m.compressed,
            m.length >= 0,
            forall|k: int| 0 <= k < i ==> 0 <= (#[trigger] m.nodes[k]).0 && 0 <= m.nodes[k].1,
        decreases nodes@.len() - i,
    {
        let (l, n) = nodes[i];
        if l < 0 || n < 0 {
            assert(m.nodes[i as int] == (l, n));
            return false;
        }
        i = i + 1;
    }
    let buffers = batch_buffers(data, start, len);
    let mut j: usize = 0;
    while j < buffers.len()
        invariant
            j <= buffers@.len(),
            buffers@ == m.buffers,
            ipc_message(data@.subrange(start as int, start + len)) == Some(m),
            m.header == 3,
            !m.compressed,
            m.length >= 0,
            forall|k: int| 0 <= k < m.nodes.len() ==> 0 <= (#[trigger] m.nodes[k]).0 && 0 <= m.nodes[k].1,
            body == m.body_length,
            body >= 0,
            forall|k: int|
                0 <= k < j ==> 0 <= (#[trigger] m.buffers[k]).0 && 0 <= m.buffers[k].1
                    && m.buffers[k].0 + m.buffers[k].1 <= m.body_length,
        decreases buffers@.len() - j,
    {
        let (offset, length) = buffers[j];
        if offset < 0 || length < 0 || offset > body - length {
            assert(m.buffers[j as int] == (offset, length));
            return false;
        }
        j = j + 1;
    }
    true
}

/// Whether the message at `data[start..start + len]` is a flat schema (see
/// `flat_schema`).
fn check_schema(data: &[u8], start: usize, len: usize, header: u8) -> (r: bool)
    requires
        start + len <= data@.len(),
        ipc_message(data@.subrange(start as int, start + len)) matches Some(m) && m.header == header,
    ensures
        ipc_message(data@.subrange(start as int, start + len)) matches Some(m) && r == flat_schema(m),
{
    if header != 1 {
        return false;
    }
    let ghost m = ipc_message(data@.subrange(start as int, start + len)).unwrap();
    let fields = schema_fields(data, start, len);
    let mut i: usize = 0;
    while i < fields.len()
        invariant
            i <= fields@.len(),
            fields@ == m.fields,
            ipc_message(data@.subrange(start as int, start + len)) == Some(m),
            m.header == 1,
            forall|k: int| 0 <= k < i ==> flat_type_tag(#[trigger] m.fields[k].0) && !m.fields[k].1,
        decreases fields@.len() - i,
    {
        let (t, dictionary) = fields[i];
        let flat = (1 <= t && t <= 11) || t == 15 || t == 18 || t == 19 || t == 20;
        if !flat || dictionary {
            assert(m.fields[i as int] == (t, dictionary));
            return false;
        }
        i = i + 1;
    }
    true
}

/// Where the body of a message ends, or `None` where arrow stops reading
/// at it (a negative body length, or a body that runs past the bytes).
fn body_end(data: &[u8], start: usize, len: usize, body: i64) -> (r: Option<usize>)
    requires
        start + len <= data@.len(),
    ensures
        match r {
            Some(next) => 0 <= body && next == start + len + body && next <= data@.len(),
            None => body < 0 || start + len + body > data@.len(),
        },
{
    if body < 0 || body as u64 > (data.len() - start - len) as u64 {
        None
    } else {
        Some(start + len + body as usize)
    }
}

/// Whether an Arrow IPC stream passes the layout check (see
/// `stream_checked`): a stream that does may be decoded.
pub fn ipc_stream_checked(data: &[u8]) -> (r: bool)
    ensures
        r == stream_checked(data@),
{
    let (start, len) = match read_frame(data, 0) {
        FrameRead::Message { meta_start, meta_len } => (meta_start, meta_len),
        _ => return true,
    };
    let (header, body) = match message_header(data, start, len) {
        Some(h) => h,
        None => return true,
    };
    let mut pos = match body_end(data, start, len, body) {
        Some(next) => next,
        None => return true,
    };
    if !check_schema(data, start, len, header) {
        return false;
    }
    loop
        invariant
            pos <= data@.len(),
            stream_checked(data@) == batches_checked(data@, pos as int),
        decreases data@.len() - pos,
    {
        let (start, len) = match read_frame(data, pos) {
            FrameRead::Message { meta_start, meta_len } => (meta_start, meta_len),
            _ => return true,
        };
        let (header, body) = match message_header(data, start, len) {
            Some(h) => h,
            None => return true,
        };
        let next = match body_end(data, start, len, body) {
            Some(next) => next,
            None => return true,
        };
        if !check_batch(data, start, len, header) {
            return false;
        }
        pos = next;
    }
}

} // verus!
