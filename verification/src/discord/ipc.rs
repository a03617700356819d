//! Low-level IPC protocol: frame layout, frame checks and I/O error classification.
//!
//! Frame structure: `[op: u32 LE][len: u32 LE][payload: UTF-8 JSON]`.

use vstd::prelude::*;
use crate::json::{Json, JsonV, json_text, parse_json, parsed_json, to_json_text};
use vstd::bytes::{spec_u32_to_le_bytes, spec_u32_from_le_bytes, u32_to_le_bytes, u32_from_le_bytes};

verus! {

#[verifier::external_type_specification]
#[verifier::external_body]
pub struct ExIoError(std::io::Error);

pub const OP_HANDSHAKE: u32 = 0;
pub const OP_FRAME: u32 = 1;

/// Maximum IPC frame payload size (16 MiB). Discord frames are tiny in practice;
/// this guards against corrupt or malicious length fields causing huge allocations.
pub const MAX_FRAME_LEN: usize = 16777216;

/// The bytes of one frame carrying `payload` with opcode `op`. The length field
/// holds the payload length truncated to 32 bits.
pub open spec fn frame_bytes(op: u32, payload: Seq<u8>) -> Seq<u8> {
    spec_u32_to_le_bytes(op) + spec_u32_to_le_bytes(payload.len() as u32) + payload
}

fn append_bytes(out: &mut Vec<u8>, bytes: &[u8])
    ensures
        final(out)@ == old(out)@ + bytes@,
{
    let mut i: usize = 0;
    let ghost start = out@;
    while i < bytes.len()
        invariant
            i <= bytes@.len(),
            out@ == start + bytes@.take(i as int),
        decreases bytes.len() - i,
    {
        out.push(bytes[i]);
        assert(bytes@.take(i + 1) =~= bytes@.take(i as int).push(bytes@[i as int]));
        i += 1;
    }
    assert(bytes@.take(i as int) =~= bytes@);
}

/// Appends a frame holding `payload` to `out`. Writing into memory cannot fail.
pub fn write_frame(out: &mut Vec<u8>, op: u32, payload: &str) -> (r: Result<(), std::io::Error>)
    ensures
        r is Ok,
        final(out)@ == old(out)@ + frame_bytes(op, vstd::utf8::encode_utf8(payload@)),
{
    let data = payload.as_bytes();
    let len = data.len() as u32;
    let op_bytes = u32_to_le_bytes(op);
    let len_bytes = u32_to_le_bytes(len);
    append_bytes(out, op_bytes.as_slice());
    append_bytes(out, len_bytes.as_slice());
    append_bytes(out, data);
    assert(final(out)@ =~= old(out)@ + frame_bytes(op, vstd::utf8::encode_utf8(payload@)));
    Ok(())
}

/// Why a frame was refused.
#[derive(Debug, Clone, Copy, PartialEq, Eq, Structural)]
pub enum FrameError {
    /// Fewer bytes than the header announces.
    UnexpectedEof,
    /// The header announces more than `MAX_FRAME_LEN` payload bytes.
    TooLarge,
    /// The payload is not one JSON document.
    BadJson,
}

/// The opcode and payload length stored in a frame header.
pub fn decode_frame_header(hdr: &[u8]) -> (r: (u32, u32))
    requires
        hdr@.len() == 8,
    ensures
        r.0 == spec_u32_from_le_bytes(hdr@.subrange(0, 4)),
        r.1 == spec_u32_from_le_bytes(hdr@.subrange(4, 8)),
{
    let op_part = vec![hdr[0], hdr[1], hdr[2], hdr[3]];
    let len_part = vec![hdr[4], hdr[5], hdr[6], hdr[7]];
    assert(op_part@ =~= hdr@.subrange(0, 4));
    assert(len_part@ =~= hdr@.subrange(4, 8));
    (u32_from_le_bytes(op_part.as_slice()), u32_from_le_bytes(len_part.as_slice()))
}

/// The announced payload length, refused when it exceeds `MAX_FRAME_LEN`.
pub fn check_frame_len(len: u32) -> (r: Result<usize, FrameError>)
    ensures
        len as int <= MAX_FRAME_LEN ==> r == Ok::<usize, FrameError>(len as usize),
        len as int > MAX_FRAME_LEN ==> r == Err::<usize, FrameError>(FrameError::TooLarge),
{
    if len as u64 > MAX_FRAME_LEN as u64 {
        Err(FrameError::TooLarge)
    } else {
        Ok(len as usize)
    }
}

/// The result of reading one frame from the start of `buf`.
pub open spec fn spec_decode_frame(buf: Seq<u8>) -> Result<(u32, Seq<u8>), FrameError> {
    if buf.len() < 8 {
        Err(FrameError::UnexpectedEof)
    } else {
        let op = spec_u32_from_le_bytes(buf.subrange(0, 4));
        let len = spec_u32_from_le_bytes(buf.subrange(4, 8));
        if len > MAX_FRAME_LEN {
            Err(FrameError::TooLarge)
        } else if buf.len() < 8 + len {
            Err(FrameError::UnexpectedEof)
        } else {
            Ok((op, buf.subrange(8, 8 + len)))
        }
    }
}

/// Reads one frame from the start of `buf`: its opcode and payload bytes.
pub fn decode_frame(buf: &[u8]) -> (r: Result<(u32, Vec<u8>), FrameError>)
    ensures
        match r {
            Ok((op, payload)) => spec_decode_frame(buf@) == Ok::<(u32, Seq<u8>), FrameError>((op, payload@)),
            Err(e) => spec_decode_frame(buf@) == Err::<(u32, Seq<u8>), FrameError>(e),
        },
{
    if buf.len() < 8 {
        return Err(FrameError::UnexpectedEof);
    }
    let hdr = vec![buf[0], buf[1], buf[2], buf[3], buf[4], buf[5], buf[6], buf[7]];
    assert(hdr@ =~= buf@.subrange(0, 8));
    assert(hdr@.subrange(0, 4) =~= buf@.subrange(0, 4));
    assert(hdr@.subrange(4, 8) =~= buf@.subrange(4, 8));
    let (op, len32) = decode_frame_header(hdr.as_slice());
    let len = match check_frame_len(len32) {
        Ok(l) => l,
        Err(e) => { return Err(e); },
    };
    if buf.len() - 8 < len {
        return Err(FrameError::UnexpectedEof);
    }
    let mut payload: Vec<u8> = Vec::new();
    let mut i: usize = 0;
    while i < len
        invariant
            i <= len,
            8 + len <= buf.len(),
            payload@ == buf@.subrange(8, 8 + i),
        decreases len - i,
    {
        payload.push(buf[8 + i]);
        assert(buf@.subrange(8, 8 + i + 1) =~= buf@.subrange(8, 8 + i).push(buf@[8 + i]));
        i += 1;
    }
    Ok((op, payload))
}

/// Decoding a frame gives back the opcode and payload it was written with.
pub proof fn lemma_frame_roundtrip(op: u32, payload: Seq<u8>, rest: Seq<u8>)
    requires
        payload.len() <= MAX_FRAME_LEN,
    ensures
        spec_decode_frame(frame_bytes(op, payload) + rest) == Ok::<(u32, Seq<u8>), FrameError>((op, payload)),
{
    vstd::bytes::lemma_auto_spec_u32_to_from_le_bytes();
    let buf = frame_bytes(op, payload) + rest;
    let len = payload.len() as u32;
    assert(buf.subrange(0, 4) =~= spec_u32_to_le_bytes(op));
    assert(buf.subrange(4, 8) =~= spec_u32_to_le_bytes(len));
    assert(len as int == payload.len());
    assert(buf.subrange(8, 8 + payload.len() as int) =~= payload);
}

/// The result of reading one frame from the start of `frame`: its opcode and
/// the JSON value its payload holds.
pub open spec fn spec_read_frame(frame: Seq<u8>) -> Result<(u32, JsonV), FrameError> {
    match spec_decode_frame(frame) {
        Ok((op, payload)) => match parsed_json(payload) {
            Some(v) => Ok((op, v)),
            None => Err(FrameError::BadJson),
        },
        Err(e) => Err(e),
    }
}

/// Reads one frame from the start of `frame` and parses its payload as JSON.
pub fn read_frame_bytes(frame: &[u8]) -> (r: Result<(u32, Json), FrameError>)
    ensures
        match r {
            Ok((op, v)) => spec_read_frame(frame@) == Ok::<(u32, JsonV), FrameError>((op, v@)),
            Err(e) => spec_read_frame(frame@) == Err::<(u32, JsonV), FrameError>(e),
        },
{
    let (op, payload) = match decode_frame(frame) {
        Ok(d) => d,
        Err(e) => { return Err(e); },
    };
    match parse_json(payload.as_slice()) {
        Some(v) => Ok((op, v)),
        None => Err(FrameError::BadJson),
    }
}

/// The frame that carries `msg` as JSON text with opcode `op`.
pub fn json_frame(op: u32, msg: &Json) -> (r: Vec<u8>)
    ensures
        r@ == frame_bytes(op, vstd::utf8::encode_utf8(json_text(msg@))),
{
    let text = to_json_text(msg);
    let mut out: Vec<u8> = Vec::new();
    let _ = write_frame(&mut out, op, text.as_str());
    assert(out@ =~= frame_bytes(op, vstd::utf8::encode_utf8(json_text(msg@))));
    out
}

/// Reading back a written frame gives its opcode and the value its text
/// parses to, or `BadJson` when the text is not JSON.
pub proof fn lemma_read_written_frame(op: u32, text: Seq<char>, rest: Seq<u8>)
    requires
        vstd::utf8::encode_utf8(text).len() <= MAX_FRAME_LEN,
    ensures
        spec_read_frame(frame_bytes(op, vstd::utf8::encode_utf8(text)) + rest) == match parsed_json(vstd::utf8::encode_utf8(text)) {
            Some(v) => Ok::<(u32, JsonV), FrameError>((op, v)),
            None => Err::<(u32, JsonV), FrameError>(FrameError::BadJson),
        },
{
    lemma_frame_roundtrip(op, vstd::utf8::encode_utf8(text), rest);
}

/// The kinds of I/O error the client loop tells apart.
#[derive(Debug, Clone, Copy, PartialEq, Eq, Structural)]
pub enum IoErrorKind {
    WouldBlock,
    TimedOut,
    Other,
}

/// True for the error kinds a read timeout produces.
pub fn is_timeout_kind(kind: IoErrorKind) -> (r: bool)
    ensures
        r == (kind == IoErrorKind::WouldBlock || kind == IoErrorKind::TimedOut),
{
    match kind {
        IoErrorKind::WouldBlock => true,
        IoErrorKind::TimedOut => true,
        IoErrorKind::Other => false,
    }
}

/// The kind `std::io::Error::kind` reports for `e`, sorted into the kinds the
/// client loop tells apart.
pub uninterp spec fn io_kind(e: std::io::Error) -> IoErrorKind;

/// The kind of an I/O error, as far as the client loop distinguishes kinds.
///
/// Calls `std::io::Error::kind`, whose result depends on the error alone; the
/// contract names that result `io_kind`.
#[verifier::external_body]
fn error_kind(e: &std::io::Error) -> (r: IoErrorKind)
    ensures
        r == io_kind(*e),
{
    match e.kind() {
        std::io::ErrorKind::WouldBlock => IoErrorKind::WouldBlock,
        std::io::ErrorKind::TimedOut => IoErrorKind::TimedOut,
        _ => IoErrorKind::Other,
    }
}

/// True when a failed read only timed out (no data yet) rather than failing.
pub fn is_timeout(e: &std::io::Error) -> (r: bool)
    ensures
        r == (io_kind(*e) == IoErrorKind::WouldBlock || io_kind(*e) == IoErrorKind::TimedOut),
{
    is_timeout_kind(error_kind(e))
}

/// Discord's runtime directory: `XDG_RUNTIME_DIR` when set, otherwise
/// `/run/user/<uid>`.
pub fn runtime_dir(xdg_runtime_dir: Option<&str>, uid: u32) -> (r: String)
    ensures
        r@ == match xdg_runtime_dir {
            Some(d) => d@,
            None => "/run/user/"@ + crate::text::dec(uid as nat),
        },
{
    match xdg_runtime_dir {
        Some(d) => d.to_owned(),
        None => crate::text::tagged("/run/user/", uid as u64),
    }
}

/// The directories searched for Discord's socket, in order: the runtime
/// directory, its Flatpak and Snap subdirectories, the temporary directory
/// (`/tmp` when unset), and `/tmp`.
pub open spec fn socket_bases(runtime: Seq<char>, tmpdir: Option<Seq<char>>) -> Seq<Seq<char>> {
    seq![
        runtime,
        runtime + "/app/com.discordapp.Discord"@,
        runtime + "/snap.discord"@,
        match tmpdir { Some(t) => t, None => "/tmp"@ },
        "/tmp"@,
    ]
}

/// Every socket path tried, in order: `discord-ipc-0` to `discord-ipc-9` in
/// each directory of [`socket_bases`].
pub open spec fn socket_paths(runtime: Seq<char>, tmpdir: Option<Seq<char>>) -> Seq<Seq<char>> {
    Seq::new(50, |k: int| socket_bases(runtime, tmpdir)[k / 10] + "/discord-ipc-"@ + crate::text::dec((k % 10) as nat))
}

pub fn socket_candidates(runtime: &str, tmpdir: Option<&str>) -> (r: Vec<String>)
    ensures
        r@.map_values(|p: String| p@) == socket_paths(runtime@, crate::json::opt_str_view(tmpdir)),
{
    let mut bases: Vec<String> = Vec::new();
    bases.push(runtime.to_owned());
    let mut flatpak = runtime.to_owned();
    flatpak.append("/app/com.discordapp.Discord");
    bases.push(flatpak);
    let mut snap = runtime.to_owned();
    snap.append("/snap.discord");
    bases.push(snap);
    bases.push(match tmpdir { Some(t) => t.to_owned(), None => "/tmp".to_owned() });
    bases.push("/tmp".to_owned());
    let ghost bv = socket_bases(runtime@, crate::json::opt_str_view(tmpdir));
    assert(bases@.map_values(|p: String| p@) =~= bv);
    let mut out: Vec<String> = Vec::new();
    let mut b: usize = 0;
    while b < 5
        invariant
            b <= 5,
            bases@.len() == 5,
            bases@.map_values(|p: String| p@) == bv,
            out@.len() == b * 10,
            forall|k: int| 0 <= k < out@.len() ==> #[trigger] out@[k]@ == bv[k / 10] + "/discord-ipc-"@ + crate::text::dec((k % 10) as nat),
        decreases 5 - b,
    {
        let mut i: u64 = 0;
        while i < 10
            invariant
                b < 5,
                i <= 10,
                bases@.len() == 5,
                bases@.map_values(|p: String| p@) == bv,
                out@.len() == b * 10 + i,
                forall|k: int| 0 <= k < out@.len() ==> #[trigger] out@[k]@ == bv[k / 10] + "/discord-ipc-"@ + crate::text::dec((k % 10) as nat),
            decreases 10 - i,
        {
            let mut path = bases[b].clone();
            path.append("/discord-ipc-");
            crate::text::push_dec(&mut path, i);
            proof {
                let k = out@.len() as int;
                assert(k / 10 == b as int && k % 10 == i as int) by (nonlinear_arith)
                    requires k == b * 10 + i, 0 <= i < 10;
                assert(bases@[b as int]@ == bv[b as int]);
            }
            out.push(path);
            i += 1;
        }
        b += 1;
    }
    assert(out@.map_values(|p: String| p@) =~= socket_paths(runtime@, crate::json::opt_str_view(tmpdir)));
    out
}

/// The directory of the token cache: `.cache/hypr-overlay` under `HOME`
/// (under `/tmp` when unset).
pub fn token_dir(home: Option<&str>) -> (r: String)
    ensures
        r@ == crate::config::path_join(
            crate::config::path_join(match home { Some(h) => h@, None => "/tmp"@ }, ".cache"@),
            "hypr-overlay"@,
        ),
{
    let base = match home {
        Some(h) => h.to_owned(),
        None => "/tmp".to_owned(),
    };
    crate::config::join(crate::config::join(base, ".cache"), "hypr-overlay")
}

/// The token cache file.
pub fn token_path(home: Option<&str>) -> (r: String)
    ensures
        r@ == crate::config::path_join(
            crate::config::path_join(
                crate::config::path_join(match home { Some(h) => h@, None => "/tmp"@ }, ".cache"@),
                "hypr-overlay"@,
            ),
            "discord-token.json"@,
        ),
{
    crate::config::join(token_dir(home), "discord-token.json")
}

} // verus!
