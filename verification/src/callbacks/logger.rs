//! The incremental transcript logger: appends new transcript content to an
//! append-only sink without rewriting history already flushed, and detects
//! history rewrites (compaction) by comparing content hashes.

use vstd::prelude::*;

use crate::callbacks::Callback;
use crate::error::Error;
use crate::llm::Message;
use crate::text::{spec_dec, u64_to_string};

verus! {

/// An append-only text sink: a log file in the surrounding program, an
/// in-memory [`StringSink`] in tests.
pub trait Sink {
    /// Everything written to the sink so far.
    spec fn spec_content(&self) -> Seq<char>;

    /// Whether writes to this sink always succeed, as they do for an
    /// in-memory sink.
    spec fn spec_infallible(&self) -> bool;

    /// Appends `s`; on success the content grows by exactly `s`, and an
    /// infallible sink stays infallible and always succeeds.
    fn write_str(&mut self, s: &str) -> (r: Result<(), Error>)
        ensures
            r is Ok ==> final(self).spec_content() == old(self).spec_content() + s@,
            old(self).spec_infallible() ==> r is Ok && final(self).spec_infallible(),
    ;
}

/// An in-memory sink that keeps the whole document in one string.
pub struct StringSink {
    pub content: String,
}

impl StringSink {
    /// An empty sink.
    pub fn new() -> (r: Self)
        ensures
            r.spec_content() == Seq::<char>::empty(),
    {
        StringSink { content: String::new() }
    }

    /// The document written so far.
    pub fn contents(&self) -> (r: &String)
        ensures
            r@ == self.spec_content(),
    {
        &self.content
    }
}

impl Sink for StringSink {
    open spec fn spec_content(&self) -> Seq<char> {
        self.content@
    }

    open spec fn spec_infallible(&self) -> bool {
        true
    }

    fn write_str(&mut self, s: &str) -> (r: Result<(), Error>)
        ensures
            r is Ok,
            final(self).spec_content() == old(self).spec_content() + s@,
    {
        self.content.append(s);
        Ok(())
    }
}

/// The hash sequence of a transcript, one hash per message.
pub open spec fn spec_hashes(t: Seq<Message>) -> Seq<u64> {
    t.map_values(|m: Message| m@.spec_hash())
}

/// Whether `new_hashes` begins with all of `old_hashes`: history has only
/// grown since the hashes in `old_hashes` were recorded.
pub open spec fn is_extension(old_hashes: Seq<u64>, new_hashes: Seq<u64>) -> bool {
    &&& new_hashes.len() >= old_hashes.len()
    &&& forall|i: int| 0 <= i < old_hashes.len() ==> new_hashes[i] == old_hashes[i]
}

/// The renderings of the messages appended to `acc`, first message first.
pub open spec fn render_messages_onto(acc: Seq<char>, msgs: Seq<Message>) -> Seq<char>
    decreases msgs.len(),
{
    if msgs.len() == 0 {
        acc
    } else {
        render_messages_onto(acc + msgs[0]@.spec_render(), msgs.drop_first())
    }
}

/// One step section of the log: its numbered header, the renderings of the
/// newly added messages, and a separator.
pub open spec fn spec_section(step: u32, msgs: Seq<Message>) -> Seq<char> {
    render_messages_onto("### Step "@ + spec_dec(step as nat) + "\n"@, msgs) + "---\n"@
}

/// The marker section emitted when a discontinuity is detected.
pub open spec fn spec_cleared_marker() -> Seq<char> {
    "## [HISTORY CLEARED]\n\n"@
}

/// Everything one logger call appends to the sink, given the hash sequence
/// it had recorded, its step counter, and the incoming transcript: the new
/// suffix alone when the transcript extends the recorded hashes, otherwise
/// the cleared marker followed by the whole transcript.
pub open spec fn spec_emitted(old_hashes: Seq<u64>, step: u32, msgs: Seq<Message>) -> Seq<char> {
    if is_extension(old_hashes, spec_hashes(msgs)) {
        spec_section(step, msgs.skip(old_hashes.len() as int))
    } else {
        spec_cleared_marker() + spec_section(step, msgs)
    }
}

/// The step counter after one call; it only labels sections, so it stops
/// rather than wrap.
pub open spec fn spec_next_step(step: u32) -> u32 {
    if step < 0xffffffffu32 {
        (step + 1) as u32
    } else {
        step
    }
}

/// How many positions of `new` and `old`, compared pairwise from the
/// front, hold the same hash.
pub open spec fn match_count(new: Seq<u64>, old: Seq<u64>) -> nat
    decreases old.len(),
{
    if old.len() == 0 || new.len() == 0 {
        0
    } else {
        (if new[0] == old[0] {
            1nat
        } else {
            0nat
        }) + match_count(new.drop_first(), old.drop_first())
    }
}

proof fn lemma_match_count_bound(new: Seq<u64>, old: Seq<u64>)
    ensures
        match_count(new, old) <= old.len(),
        match_count(new, old) <= new.len(),
    decreases old.len(),
{
    if old.len() > 0 && new.len() > 0 {
        lemma_match_count_bound(new.drop_first(), old.drop_first());
    }
}

/// The pairwise match count reaches `old`'s length exactly when `new`
/// begins with all of `old`.
proof fn lemma_match_count_extension(new: Seq<u64>, old: Seq<u64>)
    requires
        new.len() >= old.len(),
    ensures
        match_count(new, old) == old.len() <==> is_extension(old, new),
    decreases old.len(),
{
    lemma_match_count_bound(new, old);
    if old.len() > 0 {
        lemma_match_count_extension(new.drop_first(), old.drop_first());
        lemma_match_count_bound(new.drop_first(), old.drop_first());
        assert(forall|i: int|
            1 <= i < old.len() ==> new.drop_first()[i - 1] == new[i] && old.drop_first()[i - 1]
                == old[i]);
        if match_count(new, old) == old.len() {
            assert(forall|i: int| 0 <= i < old.len() ==> new[i] == old[i]) by {
                assert(new[0] == old[0]);
                assert(forall|i: int|
                    1 <= i < old.len() ==> new[i] == new.drop_first()[i - 1] && old[i]
                        == old.drop_first()[i - 1]);
            }
        }
    }
}

/// A callback that appends each turn's new transcript content to an
/// append-only sink. It records a hash per message seen; when the incoming
/// transcript no longer extends the recorded hashes — it shrank, or an
/// earlier message changed — it emits a cleared marker and re-emits the
/// whole transcript, then records the new hashes as the baseline.
pub struct MessageLogger<W: Sink> {
    /// The hash sequence of the transcript as of the previous call.
    pub last_hashes: Vec<u64>,
    pub writer: W,
    /// Counts calls, only to label the emitted sections.
    pub step: u32,
}

impl<W: Sink> MessageLogger<W> {
    /// A logger over `writer`, which first writes a `## {name}` document
    /// title.
    pub fn new(name: &str, writer: W) -> (r: Result<Box<MessageLogger<W>>, Error>)
        ensures
            r matches Ok(l) ==> {
                &&& l.last_hashes@ == Seq::<u64>::empty()
                &&& l.step == 0
                &&& l.writer.spec_content() == writer.spec_content() + "## "@ + name@ + "\n\n"@
            },
            writer.spec_infallible() ==> (r matches Ok(l) && l.writer.spec_infallible()),
    {
        let ghost w0 = writer.spec_content();
        let mut writer = writer;
        let mut header = "## ".to_owned();
        header.append(name);
        header.append("\n\n");
        let res = writer.write_str(header.as_str());
        match res {
            Ok(_) => {
                proof {
                    assert(writer.spec_content() =~= w0 + "## "@ + name@ + "\n\n"@);
                }
                Ok(Box::new(MessageLogger { last_hashes: Vec::new(), writer, step: 0 }))
            },
            Err(e) => Err(e),
        }
    }

    /// Writes the section for this step holding the messages of
    /// `messages` from position `from` on.
    fn display_messages(&mut self, messages: &Vec<Message>, from: usize) -> (r: Result<(), Error>)
        requires
            from <= messages@.len(),
        ensures
            final(self).last_hashes == old(self).last_hashes,
            final(self).step == old(self).step,
            r is Ok ==> final(self).writer.spec_content() == old(self).writer.spec_content()
                + spec_section(old(self).step, messages@.skip(from as int)),
            old(self).writer.spec_infallible() ==> r is Ok && final(self).writer.spec_infallible(),
    {
        let mut out = "### Step ".to_owned();
        let num = u64_to_string(self.step as u64);
        out.append(num.as_str());
        out.append("\n");

        let ghost target = render_messages_onto(out@, messages@.skip(from as int));
        let n = messages.len();
        let mut i: usize = from;
        while i < n
            invariant
                from <= i <= n,
                n == messages@.len(),
                render_messages_onto(out@, messages@.skip(i as int)) == target,
            decreases n - i,
        {
            proof {
                assert(messages@.skip(i as int).drop_first() =~= messages@.skip(i + 1));
                assert(messages@.skip(i as int)[0] == messages@[i as int]);
            }
            let m = messages[i].render();
            out.append(m.as_str());
            i = i + 1;
        }
        out.append("---\n");
        self.writer.write_str(out.as_str())
    }

    /// Writes the marker that says earlier history was rewritten.
    fn display_history_cleared(&mut self) -> (r: Result<(), Error>)
        ensures
            final(self).last_hashes == old(self).last_hashes,
            final(self).step == old(self).step,
            r is Ok ==> final(self).writer.spec_content() == old(self).writer.spec_content()
                + spec_cleared_marker(),
            old(self).writer.spec_infallible() ==> r is Ok && final(self).writer.spec_infallible(),
    {
        self.writer.write_str("## [HISTORY CLEARED]\n\n")
    }

    /// How many recorded hashes the incoming hash sequence agrees with,
    /// compared pairwise from the front.
    fn prefix_match_len(&self, new_hashes: &Vec<u64>) -> (r: usize)
        ensures
            r as nat == match_count(new_hashes@, self.last_hashes@),
    {
        let a = new_hashes.len();
        let b = self.last_hashes.len();
        let n = if a < b {
            a
        } else {
            b
        };
        let mut i: usize = 0;
        let mut acc: usize = 0;
        proof {
            assert(new_hashes@.skip(0) =~= new_hashes@);
            assert(self.last_hashes@.skip(0) =~= self.last_hashes@);
            lemma_match_count_bound(new_hashes@, self.last_hashes@);
        }
        while i < n
            invariant
                i <= n,
                acc <= i,
                n == if new_hashes@.len() < self.last_hashes@.len() {
                    new_hashes@.len()
                } else {
                    self.last_hashes@.len()
                },
                acc as nat + match_count(
                    new_hashes@.skip(i as int),
                    self.last_hashes@.skip(i as int),
                ) == match_count(new_hashes@, self.last_hashes@),
            decreases n - i,
        {
            proof {
                assert(new_hashes@.skip(i as int).drop_first() =~= new_hashes@.skip(i + 1));
                assert(self.last_hashes@.skip(i as int).drop_first() =~= self.last_hashes@.skip(
                    i + 1,
                ));
            }
            if new_hashes[i] == self.last_hashes[i] {
                acc = acc + 1;
            }
            i = i + 1;
        }
        acc
    }
}

impl<W: Sink> Callback for MessageLogger<W> {
    /// Hands the transcript through unchanged; on success the sink has
    /// grown by exactly what [`spec_emitted`] says this call must write,
    /// the recorded hashes are the incoming transcript's, and the step
    /// counter advanced.
    fn call(&mut self, messages: Vec<Message>) -> (r: Result<Vec<Message>, Error>)
        ensures
            r matches Ok(out) ==> {
                &&& out == messages
                &&& final(self).writer.spec_content() == old(self).writer.spec_content()
                    + spec_emitted(old(self).last_hashes@, old(self).step, messages@)
                &&& final(self).last_hashes@ == spec_hashes(messages@)
                &&& final(self).step == spec_next_step(old(self).step)
            },
            r is Err ==> final(self).last_hashes == old(self).last_hashes && final(self).step
                == old(self).step,
            old(self).writer.spec_infallible() ==> r is Ok,
    {
        let n = messages.len();
        let mut new_hashes: Vec<u64> = Vec::new();
        let mut i: usize = 0;
        while i < n
            invariant
                i <= n,
                n == messages@.len(),
                new_hashes@.len() == i,
                forall|k: int| 0 <= k < i ==> new_hashes@[k] == messages@[k]@.spec_hash(),
            decreases n - i,
        {
            let h = messages[i].get_hash();
            new_hashes.push(h);
            i = i + 1;
        }
        proof {
            assert(new_hashes@ =~= spec_hashes(messages@));
        }

        let extends = if new_hashes.len() < self.last_hashes.len() {
            false
        } else {
            let matched = self.prefix_match_len(&new_hashes);
            proof {
                lemma_match_count_extension(new_hashes@, self.last_hashes@);
            }
            matched == self.last_hashes.len()
        };
        proof {
            assert(extends == is_extension(self.last_hashes@, new_hashes@));
        }

        let ghost w0 = self.writer.spec_content();
        let ghost h0 = self.last_hashes@;
        let ghost s0 = self.step;

        if !extends {
            let res = self.display_history_cleared();
            match res {
                Ok(_) => {},
                Err(e) => {
                    return Err(e);
                },
            }
            let res = self.display_messages(&messages, 0);
            match res {
                Ok(_) => {},
                Err(e) => {
                    return Err(e);
                },
            }
            proof {
                assert(messages@.skip(0) =~= messages@);
                assert(self.writer.spec_content() =~= w0 + spec_emitted(h0, s0, messages@));
            }
        } else {
            let from = self.last_hashes.len();
            let res = self.display_messages(&messages, from);
            match res {
                Ok(_) => {},
                Err(e) => {
                    return Err(e);
                },
            }
            proof {
                assert(self.writer.spec_content() =~= w0 + spec_emitted(h0, s0, messages@));
            }
        }

        if self.step < 0xffffffffu32 {
            self.step = self.step + 1;
        }
        self.last_hashes = new_hashes;
        Ok(messages)
    }
}

/// Law: called on a transcript that extends the one whose hashes it last
/// recorded, the logger emits exactly one step section holding the new
/// messages and nothing else — content already flushed is never re-emitted.
pub proof fn lemma_logger_incremental(prev: Seq<Message>, cur: Seq<Message>, step: u32)
    requires
        prev.len() <= cur.len(),
        forall|i: int| 0 <= i < prev.len() ==> cur[i] == prev[i],
    ensures
        spec_emitted(spec_hashes(prev), step, cur) == spec_section(
            step,
            cur.skip(prev.len() as int),
        ),
{
    assert(is_extension(spec_hashes(prev), spec_hashes(cur)));
}

/// Law: called on a transcript that does not extend the hashes it last
/// recorded — the transcript shrank, or diverges somewhere in the shared
/// prefix — the logger emits the cleared marker followed by the whole
/// current transcript.
pub proof fn lemma_logger_discontinuity(old_hashes: Seq<u64>, cur: Seq<Message>, step: u32)
    requires
        !is_extension(old_hashes, spec_hashes(cur)),
    ensures
        spec_emitted(old_hashes, step, cur) == spec_cleared_marker() + spec_section(step, cur),
{
}

} // verus!
