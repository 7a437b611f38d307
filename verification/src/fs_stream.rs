//! File streaming: handles to streams and what reading from them gives.
//!
//! The streams are kept in a table that the caller owns. The data is made
//! up: no file is opened.

use vstd::prelude::*;
use crate::error::{HostError, HostErrorKind};
use crate::metrics::as_unsigned;
use crate::text::{chars_of, copy_str, decimal, push_decimal, push_str, string_from_chars};
use crate::value::{arg_int, arg_str, int_arg, text_arg, views_of, Value, ValueView};

verus! {

/// An open stream.
#[derive(Debug, Clone)]
pub struct FileStream {
    /// The path of the file.
    pub path: String,
    /// The size of the buffer: lines for a tail, bytes for chunks.
    pub buffer_size: usize,
    /// How far the stream was read.
    pub position: usize,
}

/// The table of the open streams.
#[derive(Debug)]
pub struct StreamTable {
    next_handle: i64,
    entries: Vec<(i64, FileStream)>,
}

/// The position of the first of `handles` equal to `handle` (the length
/// where there is none).
pub open spec fn handle_slot(handles: Seq<i64>, handle: i64) -> int
    decreases handles.len(),
{
    if handles.len() == 0 {
        0
    } else if handles[0] == handle {
        0
    } else {
        1 + handle_slot(handles.drop_first(), handle)
    }
}

/// `handle_slot` finds the first position with the handle, if there is
/// one.
pub proof fn lemma_handle_slot(handles: Seq<i64>, handle: i64)
    ensures
        0 <= handle_slot(handles, handle) <= handles.len(),
        handle_slot(handles, handle) < handles.len() ==> handles[handle_slot(handles, handle)]
            == handle,
        forall|i: int| 0 <= i < handle_slot(handles, handle) ==> handles[i] != handle,
    decreases handles.len(),
{
    if handles.len() > 0 && handles[0] != handle {
        let rest = handles.drop_first();
        lemma_handle_slot(rest, handle);
        assert forall|i: int| 0 <= i < handle_slot(handles, handle) implies handles[i]
            != handle by {
            if i > 0 {
                assert(rest[i - 1] == handles[i]);
            }
        }
    }
}

/// The size that an integer argument stands for: the unsigned number with
/// the same bits, cut to the width of a size.
pub open spec fn as_size(i: i64) -> usize {
    (as_unsigned(i) as int % (usize::MAX as int + 1)) as usize
}

fn to_size(i: i64) -> (r: usize)
    ensures
        r == as_size(i),
{
    let unsigned: u64 = if i >= 0 {
        i as u64
    } else {
        ((i - i64::MIN) as u64) + 0x8000_0000_0000_0000
    };
    (unsigned as u128 % (usize::MAX as u128 + 1)) as usize
}

impl StreamTable {
    /// The handle that the next stream gets.
    pub closed spec fn next(&self) -> i64 {
        self.next_handle
    }

    /// The handles of the open streams, in the order of their opening.
    pub closed spec fn handles(&self) -> Seq<i64> {
        self.entries@.map_values(|e: (i64, FileStream)| e.0)
    }

    /// The open streams, in the order of their handles.
    pub closed spec fn streams(&self) -> Seq<FileStream> {
        self.entries@.map_values(|e: (i64, FileStream)| e.1)
    }

    /// The stream of `handle`, where it is open.
    pub open spec fn stream(&self, handle: i64) -> Option<FileStream> {
        let at = handle_slot(self.handles(), handle);
        if 0 <= at < self.streams().len() {
            Some(self.streams()[at])
        } else {
            None
        }
    }

    /// A table without streams; the first handle is one.
    pub fn new() -> (r: Self)
        ensures
            r.next() == 1,
            r.handles() == Seq::<i64>::empty(),
            r.streams() == Seq::<FileStream>::empty(),
    {
        let r = StreamTable { next_handle: 1, entries: Vec::new() };
        assert(r.handles() =~= Seq::<i64>::empty());
        assert(r.streams() =~= Seq::<FileStream>::empty());
        r
    }

    fn find(&self, handle: i64) -> (r: usize)
        ensures
            r == handle_slot(self.handles(), handle),
            r <= self.handles().len(),
    {
        let mut i: usize = 0;
        proof {
            lemma_handle_slot(self.handles(), handle);
        }
        while i < self.entries.len()
            invariant
                i <= self.entries.len(),
                forall|k: int| 0 <= k < i ==> self.handles()[k] != handle,
                0 <= handle_slot(self.handles(), handle) <= self.handles().len(),
                handle_slot(self.handles(), handle) < self.handles().len() ==> self.handles()[
                    handle_slot(self.handles(), handle)
                ] == handle,
                forall|k: int|
                    0 <= k < handle_slot(self.handles(), handle) ==> self.handles()[k] != handle,
            decreases self.entries.len() - i,
        {
            if self.entries[i].0 == handle {
                assert(self.handles()[i as int] == handle);
                return i;
            }
            i += 1;
        }
        i
    }

    fn insert(&mut self, path: &str, buffer_size: usize) -> (handle: i64)
        ensures
            handle == old(self).next(),
            final(self).next() == old(self).next().wrapping_add(1),
            final(self).handles() == old(self).handles().push(handle),
            final(self).streams().len() == old(self).streams().len() + 1,
            final(self).streams().drop_last() == old(self).streams(),
            final(self).streams().last().path@ == path@,
            final(self).streams().last().buffer_size == buffer_size,
            final(self).streams().last().position == 0,
    {
        let handle = self.next_handle;
        self.next_handle = handle.wrapping_add(1);
        let ghost before = self.streams();
        let ghost handles = self.handles();
        self.entries.push((handle, FileStream { path: copy_str(path), buffer_size, position: 0 }));
        assert(self.streams().drop_last() =~= before);
        assert(self.handles() =~= handles.push(handle));
        handle
    }
}

impl Default for StreamTable {
    fn default() -> (r: Self)
        ensures
            r.next() == 1,
            r.handles() == Seq::<i64>::empty(),
    {
        StreamTable::new()
    }
}

/// What opening a stream asks for: the path and the size of the buffer,
/// which is `default_size` where the second argument is no integer.
/// `missing` is the message for a call without a path.
pub open spec fn open_request(
    args: Seq<ValueView>,
    default_size: usize,
    missing: Seq<char>,
) -> Result<(Seq<char>, usize), (HostErrorKind, Seq<char>)> {
    match text_arg(args, 0) {
        None => Err((HostErrorKind::HostFunction, missing)),
        Some(path) => Ok(
            (
                path,
                match int_arg(args, 1) {
                    Some(size) => as_size(size),
                    None => default_size,
                },
            ),
        ),
    }
}

fn open_stream(table: &mut StreamTable, args: &[Value], default_size: usize, missing: &str) -> (r:
    Result<Value, HostError>)
    ensures
        match open_request(views_of(args@), default_size, missing@) {
            Ok((path, size)) => {
                &&& r matches Ok(v) && v@ == ValueView::Int(old(table).next())
                &&& final(table).next() == old(table).next().wrapping_add(1)
                &&& final(table).handles() == old(table).handles().push(old(table).next())
                &&& final(table).streams().drop_last() == old(table).streams()
                &&& final(table).streams().last().path@ == path
                &&& final(table).streams().last().buffer_size == size
                &&& final(table).streams().last().position == 0
            },
            Err(e) => r matches Err(x) && x@ == e && *final(table) == *old(table),
        },
{
    let path = match arg_str(args, 0) {
        Some(p) => p,
        None => {
            return Err(HostError::host_function(missing));
        },
    };
    let size: usize = match arg_int(args, 1) {
        Some(s) => to_size(s),
        None => default_size,
    };
    let handle = table.insert(path, size);
    Ok(Value::Int(handle))
}

/// `fs_stream.tail`: opens the file in the first argument for tailing, with
/// a buffer of as many lines as the second argument says (100 by default),
/// and gives the handle of the stream.
pub fn tail(table: &mut StreamTable, args: &[Value]) -> (r: Result<Value, HostError>)
    ensures
        match open_request(views_of(args@), 100, "fs_stream.tail: missing path argument"@) {
            Ok((path, size)) => {
                &&& r matches Ok(v) && v@ == ValueView::Int(old(table).next())
                &&& final(table).next() == old(table).next().wrapping_add(1)
                &&& final(table).handles() == old(table).handles().push(old(table).next())
                &&& final(table).streams().drop_last() == old(table).streams()
                &&& final(table).streams().last().path@ == path
                &&& final(table).streams().last().buffer_size == size
                &&& final(table).streams().last().position == 0
            },
            Err(e) => r matches Err(x) && x@ == e && *final(table) == *old(table),
        },
{
    open_stream(table, args, 100, "fs_stream.tail: missing path argument")
}

/// `fs_stream.open`: opens the file in the first argument for reading in
/// chunks of as many bytes as the second argument says (4096 by default),
/// and gives the handle of the stream.
pub fn open(table: &mut StreamTable, args: &[Value]) -> (r: Result<Value, HostError>)
    ensures
        match open_request(views_of(args@), 4096, "fs_stream.open: missing path argument"@) {
            Ok((path, size)) => {
                &&& r matches Ok(v) && v@ == ValueView::Int(old(table).next())
                &&& final(table).next() == old(table).next().wrapping_add(1)
                &&& final(table).handles() == old(table).handles().push(old(table).next())
                &&& final(table).streams().drop_last() == old(table).streams()
                &&& final(table).streams().last().path@ == path
                &&& final(table).streams().last().buffer_size == size
                &&& final(table).streams().last().position == 0
            },
            Err(e) => r matches Err(x) && x@ == e && *final(table) == *old(table),
        },
{
    open_stream(table, args, 4096, "fs_stream.open: missing path argument")
}

/// The stream that a call works on: that of the handle in the first
/// argument. `missing` and `invalid` are the messages for a call without a
/// handle and for a handle that is not open.
pub open spec fn addressed(
    table: StreamTable,
    args: Seq<ValueView>,
    missing: Seq<char>,
    invalid: Seq<char>,
) -> Result<int, (HostErrorKind, Seq<char>)> {
    match int_arg(args, 0) {
        None => Err((HostErrorKind::HostFunction, missing)),
        Some(handle) => {
            let at = handle_slot(table.handles(), handle);
            if at < table.handles().len() {
                Ok(at)
            } else {
                Err((HostErrorKind::HostFunction, invalid))
            }
        },
    }
}

fn address(table: &StreamTable, args: &[Value], missing: &str, invalid: &str) -> (r: Result<
    usize,
    HostError,
>)
    ensures
        match addressed(*table, views_of(args@), missing@, invalid@) {
            Ok(at) => r matches Ok(i) && i == at && 0 <= at < table.handles().len(),
            Err(e) => r matches Err(x) && x@ == e,
        },
{
    let handle = match arg_int(args, 0) {
        Some(h) => h,
        None => {
            return Err(HostError::host_function(missing));
        },
    };
    let at = table.find(handle);
    if at < table.entries.len() {
        Ok(at)
    } else {
        Err(HostError::host_function(invalid))
    }
}

/// The made-up line at position `position` of the file `path`.
pub open spec fn line_text(position: usize, path: Seq<char>) -> Seq<char> {
    "Mock line "@ + decimal(position as nat) + " from "@ + path
}

/// `fs_stream.read_line`: the next line of the stream, or null where none
/// is ready. Every call moves the stream on by one; every third call gives
/// a line.
pub fn read_line(table: &mut StreamTable, args: &[Value]) -> (r: Result<Value, HostError>)
    ensures
        final(table).handles() == old(table).handles(),
        final(table).next() == old(table).next(),
        match addressed(
            *old(table),
            views_of(args@),
            "fs_stream.read_line: missing handle argument"@,
            "fs_stream.read_line: invalid handle"@,
        ) {
            Ok(at) => {
                let before = old(table).streams()[at];
                let position = before.position.wrapping_add(1);
                &&& final(table).streams() == old(table).streams().update(
                    at,
                    FileStream { position, ..before },
                )
                &&& r matches Ok(v) && v@ == if position % 3 == 0 {
                    ValueView::Text(line_text(position, before.path@))
                } else {
                    ValueView::Null
                }
            },
            Err(e) => r matches Err(x) && x@ == e && *final(table) == *old(table),
        },
{
    let at = match address(
        table,
        args,
        "fs_stream.read_line: missing handle argument",
        "fs_stream.read_line: invalid handle",
    ) {
        Ok(i) => i,
        Err(e) => {
            return Err(e);
        },
    };
    let ghost handles = table.handles();
    let ghost streams = table.streams();
    let handle = table.entries[at].0;
    let position = table.entries[at].1.position.wrapping_add(1);
    let path = table.entries[at].1.path.clone();
    let buffer_size = table.entries[at].1.buffer_size;
    let value = if position % 3 == 0 {
        let mut out = chars_of("Mock line ");
        push_decimal(&mut out, position as u64);
        push_str(&mut out, " from ");
        push_str(&mut out, path.as_str());
        Value::String(string_from_chars(&out))
    } else {
        Value::Null
    };
    table.entries.set(at, (handle, FileStream { path, buffer_size, position }));
    proof {
        assert(table.handles() =~= handles);
        assert(table.streams() =~= streams.update(
            at as int,
            FileStream { position, ..streams[at as int] },
        ));
    }
    Ok(value)
}

/// `fs_stream.close`: closes the stream of the handle in the first
/// argument.
pub fn close(table: &mut StreamTable, args: &[Value]) -> (r: Result<Value, HostError>)
    ensures
        final(table).next() == old(table).next(),
        match addressed(
            *old(table),
            views_of(args@),
            "fs_stream.close: missing handle argument"@,
            "fs_stream.close: invalid handle"@,
        ) {
            Ok(at) => {
                &&& r matches Ok(v) && v@ == ValueView::Null
                &&& final(table).handles() == old(table).handles().remove(at)
                &&& final(table).streams() == old(table).streams().remove(at)
            },
            Err(e) => r matches Err(x) && x@ == e && *final(table) == *old(table),
        },
{
    let at = match address(
        table,
        args,
        "fs_stream.close: missing handle argument",
        "fs_stream.close: invalid handle",
    ) {
        Ok(i) => i,
        Err(e) => {
            return Err(e);
        },
    };
    let ghost handles = table.handles();
    let ghost streams = table.streams();
    table.entries.remove(at);
    proof {
        assert(table.handles() =~= handles.remove(at as int));
        assert(table.streams() =~= streams.remove(at as int));
    }
    Ok(Value::Null)
}

/// `fs_stream.read_available`: the lines of the stream that are ready,
/// which are none.
pub fn read_available(table: &StreamTable, args: &[Value]) -> (r: Result<Value, HostError>)
    ensures
        match addressed(
            *table,
            views_of(args@),
            "fs_stream.read_available: missing handle argument"@,
            "fs_stream.read_available: invalid handle"@,
        ) {
            Ok(_) => r matches Ok(v) && v@ == ValueView::List(Seq::empty()),
            Err(e) => r matches Err(x) && x@ == e,
        },
{
    match address(
        table,
        args,
        "fs_stream.read_available: missing handle argument",
        "fs_stream.read_available: invalid handle",
    ) {
        Ok(_) => {
            let items: Vec<Value> = Vec::new();
            assert(views_of(items@) =~= Seq::<ValueView>::empty());
            Ok(Value::List(items))
        },
        Err(e) => Err(e),
    }
}

/// The made-up chunk at position `position`.
pub open spec fn chunk_text(position: usize) -> Seq<char> {
    "Mock chunk at position "@ + decimal(position as nat)
}

/// `fs_stream.read_chunk`: the next chunk of the stream, or null at the
/// end. Every call moves the stream on by the size of its buffer; the end
/// is reached after five chunks.
pub fn read_chunk(table: &mut StreamTable, args: &[Value]) -> (r: Result<Value, HostError>)
    ensures
        final(table).handles() == old(table).handles(),
        final(table).next() == old(table).next(),
        match addressed(
            *old(table),
            views_of(args@),
            "fs_stream.read_chunk: missing handle argument"@,
            "fs_stream.read_chunk: invalid handle"@,
        ) {
            Ok(at) => {
                let before = old(table).streams()[at];
                let position = before.position.wrapping_add(before.buffer_size);
                &&& final(table).streams() == old(table).streams().update(
                    at,
                    FileStream { position, ..before },
                )
                &&& r matches Ok(v) && v@ == if position > before.buffer_size.wrapping_mul(5) {
                    ValueView::Null
                } else {
                    ValueView::Text(chunk_text(position))
                }
            },
            Err(e) => r matches Err(x) && x@ == e && *final(table) == *old(table),
        },
{
    let at = match address(
        table,
        args,
        "fs_stream.read_chunk: missing handle argument",
        "fs_stream.read_chunk: invalid handle",
    ) {
        Ok(i) => i,
        Err(e) => {
            return Err(e);
        },
    };
    let ghost handles = table.handles();
    let ghost streams = table.streams();
    let handle = table.entries[at].0;
    let buffer_size = table.entries[at].1.buffer_size;
    let position = table.entries[at].1.position.wrapping_add(buffer_size);
    let path = table.entries[at].1.path.clone();
    let value = if position > buffer_size.wrapping_mul(5) {
        Value::Null
    } else {
        let mut out = chars_of("Mock chunk at position ");
        push_decimal(&mut out, position as u64);
        Value::String(string_from_chars(&out))
    };
    table.entries.set(at, (handle, FileStream { path, buffer_size, position }));
    proof {
        assert(table.handles() =~= handles);
        assert(table.streams() =~= streams.update(
            at as int,
            FileStream { position, ..streams[at as int] },
        ));
    }
    Ok(value)
}

} // verus!
