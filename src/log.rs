use vstd::prelude::*;
use crate::text::{dec_text, push_decimal};

verus! {

/// One message of the log, with the tag of the part that wrote it and its
/// place in the log.
#[derive(Clone, Debug)]
pub struct LogEntry {
    pub tag: String,
    pub message: String,
    pub sequence: u64,
}

/// The line that `dump` renders for one entry: `[sequence] tag: message`.
pub open spec fn entry_line(e: LogEntry) -> Seq<char> {
    seq!['['] + dec_text(e.sequence as nat) + seq![']', ' '] + e.tag@ + seq![':', ' ']
        + e.message@ + seq!['\n']
}

/// All entries rendered one per line, in order.
pub open spec fn dump_text(entries: Seq<LogEntry>) -> Seq<char>
    decreases entries.len(),
{
    if entries.len() == 0 {
        Seq::empty()
    } else {
        dump_text(entries.drop_last()) + entry_line(entries.last())
    }
}

/// Most entries the log holds; once it is full, further messages are dropped
/// so that the log cannot grow without bound.
pub const LOG_CAPACITY: usize = 65536;

/// Append-only log: entries stay in the order in which they were added, and
/// the entry at position `i` carries sequence number `i`.
pub struct Log {
    entries: Vec<LogEntry>,
}

impl Log {
    /// The entries, oldest first.
    pub closed spec fn spec_entries(&self) -> Seq<LogEntry> {
        self.entries@
    }

    pub fn entries(&self) -> (r: &Vec<LogEntry>)
        ensures
            r@ == self.spec_entries(),
    {
        &self.entries
    }

    /// `after` is `before` with one entry of `tag` and `message` at the end,
    /// or `before` unchanged when it was full.
    pub open spec fn appended(before: Log, after: Log, tag: Seq<char>, message: Seq<char>) -> bool {
        if before.spec_entries().len() < LOG_CAPACITY {
            &&& after.spec_entries().len() == before.spec_entries().len() + 1
            &&& after.spec_entries().drop_last() == before.spec_entries()
            &&& after.spec_entries().last().tag@ == tag
            &&& after.spec_entries().last().message@ == message
            &&& after.spec_entries().last().sequence == before.spec_entries().len()
        } else {
            after.spec_entries() == before.spec_entries()
        }
    }

    pub open spec fn wf(&self) -> bool {
        &&& self.spec_entries().len() <= LOG_CAPACITY
        &&& forall|i: int| 0 <= i < self.spec_entries().len() ==> #[trigger] self.spec_entries()[i].sequence == i
    }

    pub fn new() -> (r: Log)
        ensures
            r.wf(),
            r.spec_entries().len() == 0,
    {
        Log { entries: Vec::new() }
    }

    /// Appends an entry with the next sequence number; a full log is left as
    /// it is.
    pub fn add(&mut self, tag: &str, message: &str)
        requires
            old(self).wf(),
        ensures
            final(self).wf(),
            Log::appended(*old(self), *final(self), tag@, message@),
    {
        if self.entries.len() >= LOG_CAPACITY {
            return;
        }
        let n = self.entries.len() as u64;
        let e = LogEntry { tag: tag.to_owned(), message: message.to_owned(), sequence: n };
        self.entries.push(e);
        proof {
            assert(final(self).spec_entries().drop_last() =~= old(self).spec_entries());
        }
    }

    /// All entries, one per line, in the order in which they were added.
    pub fn dump(&self) -> (r: String)
        ensures
            r@ == dump_text(self.spec_entries()),
    {
        let mut s = String::new();
        let mut i: usize = 0;
        while i < self.entries.len()
            invariant
                i <= self.spec_entries().len(),
                s@ == dump_text(self.spec_entries().take(i as int)),
            decreases self.spec_entries().len() - i,
        {
            let e = &self.entries[i];
            proof {
                reveal_strlit("[");
                reveal_strlit("] ");
                reveal_strlit(": ");
                reveal_strlit("\n");
            }
            s.append("[");
            push_decimal(&mut s, e.sequence);
            s.append("] ");
            s.append(e.tag.as_str());
            s.append(": ");
            s.append(e.message.as_str());
            s.append("\n");
            proof {
                let t = self.spec_entries().take(i + 1);
                assert(t.drop_last() =~= self.spec_entries().take(i as int));
                assert(t.last() == *e);
            }
            i = i + 1;
        }
        proof {
            assert(self.spec_entries().take(i as int) =~= self.spec_entries());
        }
        s
    }

    /// A log that gets one more entry renders as before, followed by the new
    /// entry's line, and its sequence numbers stay strictly increasing.
    pub proof fn lemma_add_keeps_order(before: Log, after: Log, tag: Seq<char>, message: Seq<char>)
        requires
            before.wf(),
            after.wf(),
            before.spec_entries().len() < LOG_CAPACITY,
            Log::appended(before, after, tag, message),
        ensures
            dump_text(after.spec_entries()) == dump_text(before.spec_entries()) + entry_line(after.spec_entries().last()),
            forall|i: int, j: int|
                0 <= i < j < after.spec_entries().len() ==> #[trigger] after.spec_entries()[i].sequence
                    < #[trigger] after.spec_entries()[j].sequence,
    {
        assert forall|i: int, j: int|
            0 <= i < j < after.spec_entries().len() implies #[trigger] after.spec_entries()[i].sequence
                < #[trigger] after.spec_entries()[j].sequence by {
            assert(after.spec_entries()[i].sequence == i);
            assert(after.spec_entries()[j].sequence == j);
        }
    }
}

/// The first `k` logs of `logs` hold, from an empty start, one entry per
/// message before them, in call order, with sequence numbers `0..k`.
proof fn lemma_adds_prefix(
    logs: Seq<Log>,
    tags: Seq<Seq<char>>,
    messages: Seq<Seq<char>>,
    k: int,
)
    requires
        logs.len() == tags.len() + 1,
        messages.len() == tags.len(),
        tags.len() <= LOG_CAPACITY,
        logs[0].spec_entries().len() == 0,
        forall|i: int| 0 <= i < tags.len() ==> #[trigger] Log::appended(logs[i], logs[i + 1], tags[i], messages[i]),
        0 <= k <= tags.len(),
    ensures
        logs[k].spec_entries().len() == k,
        forall|i: int| 0 <= i < k ==> {
            &&& (#[trigger] logs[k].spec_entries()[i]).tag@ == tags[i]
            &&& logs[k].spec_entries()[i].message@ == messages[i]
            &&& logs[k].spec_entries()[i].sequence == i
        },
    decreases k,
{
    if k > 0 {
        lemma_adds_prefix(logs, tags, messages, k - 1);
        assert(Log::appended(logs[k - 1], logs[k], tags[k - 1], messages[k - 1]));
        assert forall|i: int| 0 <= i < k implies {
            &&& (#[trigger] logs[k].spec_entries()[i]).tag@ == tags[i]
            &&& logs[k].spec_entries()[i].message@ == messages[i]
            &&& logs[k].spec_entries()[i].sequence == i
        } by {
            if i < k - 1 {
                assert(logs[k].spec_entries()[i] == logs[k].spec_entries().drop_last()[i]);
            }
        }
    }
}

impl Log {
    /// After `n` additions to an empty log, each within its capacity, the log
    /// holds exactly `n` entries: entry `i` has the tag and message of the
    /// `i`-th call and sequence number `i`, so that `dump` lists them in call
    /// order with strictly increasing sequence numbers.
    pub proof fn lemma_adds_in_call_order(
        logs: Seq<Log>,
        tags: Seq<Seq<char>>,
        messages: Seq<Seq<char>>,
    )
        requires
            logs.len() == tags.len() + 1,
            messages.len() == tags.len(),
            tags.len() <= LOG_CAPACITY,
            logs[0].spec_entries().len() == 0,
            forall|i: int| 0 <= i < tags.len() ==> #[trigger] Log::appended(logs[i], logs[i + 1], tags[i], messages[i]),
        ensures
            logs.last().spec_entries().len() == tags.len(),
            forall|i: int| 0 <= i < tags.len() ==> {
                &&& (#[trigger] logs.last().spec_entries()[i]).tag@ == tags[i]
                &&& logs.last().spec_entries()[i].message@ == messages[i]
                &&& logs.last().spec_entries()[i].sequence == i
            },
            forall|i: int, j: int|
                0 <= i < j < tags.len() ==> #[trigger] logs.last().spec_entries()[i].sequence
                    < #[trigger] logs.last().spec_entries()[j].sequence,
    {
        lemma_adds_prefix(logs, tags, messages, tags.len() as int);
        let last = logs.last();
        assert(last == logs[tags.len() as int]);
        assert forall|i: int, j: int|
            0 <= i < j < tags.len() implies #[trigger] last.spec_entries()[i].sequence
                < #[trigger] last.spec_entries()[j].sequence by {
            assert(last.spec_entries()[i].sequence == i);
            assert(last.spec_entries()[j].sequence == j);
        }
    }
}

} // verus!
