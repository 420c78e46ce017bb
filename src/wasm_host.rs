//! The host side of the guest telemetry bridge: field formatting and span bookkeeping.

use vstd::prelude::*;

verus! {

#[derive(Clone, Copy, Debug, PartialEq, Eq, Structural)]
pub enum LogLevel {
    Trace,
    Debug,
    Info,
    Warn,
    Error,
}

/// A field that a guest attaches to a log or span.
#[derive(Clone, Debug)]
pub struct Field<'a> {
    pub key: &'a str,
    pub value: &'a str,
}

/// The views of a list of fields.
pub open spec fn field_views(fields: Seq<Field>) -> Seq<(Seq<char>, Seq<char>)> {
    fields.map_values(|f: Field| (f.key@, f.value@))
}

/// Fields written as `k=v`, separated by `, `.
pub open spec fn join_fields(fs: Seq<(Seq<char>, Seq<char>)>) -> Seq<char>
    decreases fs.len(),
{
    if fs.len() == 0 {
        Seq::empty()
    } else {
        let head = join_fields(fs.drop_last());
        let sep = if fs.len() > 1 {
            ", "@
        } else {
            Seq::<char>::empty()
        };
        head + sep + fs.last().0 + "="@ + fs.last().1
    }
}

/// The fields written as `k=v`, separated by `, `.
pub fn format_fields(fields: &[Field]) -> (r: String)
    ensures
        r@ == join_fields(field_views(fields@)),
{
    let mut out = String::new();
    let mut i: usize = 0;
    while i < fields.len()
        invariant
            i <= fields@.len(),
            out@ == join_fields(field_views(fields@).subrange(0, i as int)),
        decreases fields@.len() - i,
    {
        let ghost done = field_views(fields@).subrange(0, i + 1);
        assert(done.drop_last() =~= field_views(fields@).subrange(0, i as int));
        let ghost prev = out@;
        if i > 0 {
            out.append(", ");
        }
        out.append(fields[i].key);
        out.append("=");
        out.append(fields[i].value);
        proof {
            if i > 0 {
                assert(out@ =~= prev + ", "@ + done.last().0 + "="@ + done.last().1);
            } else {
                assert(out@ =~= prev + Seq::<char>::empty() + done.last().0 + "="@ + done.last().1);
            }
        }
        i = i + 1;
    }
    assert(field_views(fields@).subrange(0, fields@.len() as int) =~= field_views(fields@));
    out
}

/// The ids handed out to guest spans.
#[derive(Clone, Debug)]
pub struct SpanIds {
    pub next_id: u64,
}

impl SpanIds {
    /// Ids start at 1.
    pub fn new() -> (r: Self)
        ensures
            r.next_id == 1,
    {
        SpanIds { next_id: 1 }
    }

    /// Takes the next id; ids wrap around at the end of the range.
    pub fn take(&mut self) -> (r: u64)
        ensures
            r == old(self).next_id,
            final(self).next_id == (if old(self).next_id == u64::MAX {
                0
            } else {
                (old(self).next_id + 1) as u64
            }),
    {
        let id = self.next_id;
        self.next_id = if id == u64::MAX {
            0
        } else {
            id + 1
        };
        id
    }
}

/// The guest spans entered on one thread, innermost last.
#[derive(Clone, Debug)]
pub struct HostSpans {
    pub stack: Vec<u64>,
}

impl HostSpans {
    /// No span is entered.
    pub fn new() -> (r: Self)
        ensures
            r.stack@.len() == 0,
    {
        HostSpans { stack: Vec::new() }
    }

    /// Enters span `id`.
    pub fn enter(&mut self, id: u64)
        ensures
            final(self).stack@ == old(self).stack@.push(id),
    {
        self.stack.push(id);
    }

    /// Ends span `id`: it leaves the stack when it is the innermost entered span. Returns
    /// whether it did; any other id is unknown and leaves the stack as it is.
    pub fn end(&mut self, id: u64) -> (r: bool)
        ensures
            r == (old(self).stack@.len() > 0 && old(self).stack@.last() == id),
            r ==> final(self).stack@ == old(self).stack@.drop_last(),
            !r ==> final(self).stack@ == old(self).stack@,
    {
        let n = self.stack.len();
        if n > 0 && self.stack[n - 1] == id {
            self.stack.pop();
            true
        } else {
            false
        }
    }
}

} // verus!
