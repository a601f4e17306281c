//! Collecting the output of a shell command while keeping memory bounded:
//! bytes past the limit are dropped and the output is marked truncated.
use vstd::prelude::*;

verus! {

/// The limit on collected shell output, in bytes.
pub const SHELL_COMMAND_OUTPUT_LIMIT: usize = 1048576;

/// One read of `chunk`: while the buffer is below the limit it takes as much
/// of the chunk as fits; a chunk not taken whole marks the output truncated.
pub open spec fn absorb(buf: Seq<u8>, truncated: bool, chunk: Seq<u8>, limit: nat) -> (Seq<u8>, bool) {
    if buf.len() < limit {
        let room = (limit - buf.len()) as nat;
        let take: nat = if room < chunk.len() { room } else { chunk.len() };
        (buf + chunk.take(take as int), truncated || take < chunk.len())
    } else {
        (buf, true)
    }
}

/// The buffer and flag after the given reads, starting empty.
pub open spec fn absorb_all(chunks: Seq<Seq<u8>>, limit: nat) -> (Seq<u8>, bool)
    decreases chunks.len(),
{
    if chunks.len() == 0 {
        (Seq::empty(), false)
    } else {
        let (b, t) = absorb_all(chunks.drop_last(), limit);
        absorb(b, t, chunks.last(), limit)
    }
}

/// All the bytes read, in order.
pub open spec fn concat_all(chunks: Seq<Seq<u8>>) -> Seq<u8>
    decreases chunks.len(),
{
    if chunks.len() == 0 {
        Seq::empty()
    } else {
        concat_all(chunks.drop_last()) + chunks.last()
    }
}

/// Takes one non-empty read into the buffer; returns whether the output is
/// now known to be truncated.
pub fn absorb_chunk(buf: &mut Vec<u8>, truncated: bool, chunk: &[u8], limit: usize) -> (t: bool)
    requires
        chunk@.len() > 0,
    ensures
        (final(buf)@, t) == absorb(old(buf)@, truncated, chunk@, limit as nat),
{
    if buf.len() < limit {
        let remaining = limit - buf.len();
        let take = if remaining < chunk.len() { remaining } else { chunk.len() };
        let mut i: usize = 0;
        let ghost start = buf@;
        while i < take
            invariant
                i <= take,
                take <= chunk@.len(),
                buf@ == start + chunk@.take(i as int),
            decreases take - i,
        {
            buf.push(chunk[i]);
            i = i + 1;
            assert(buf@ =~= start + chunk@.take(i as int));
        }
        truncated || take < chunk.len()
    } else {
        true
    }
}

/// Reading in chunks keeps exactly the first `limit` bytes of the output,
/// and the output counts as truncated exactly when it was longer than the
/// limit.
pub proof fn lemma_bounded_output(chunks: Seq<Seq<u8>>, limit: nat)
    requires
        forall|i: int| 0 <= i < chunks.len() ==> (#[trigger] chunks[i]).len() > 0,
    ensures
        ({
            let all = concat_all(chunks);
            let (b, t) = absorb_all(chunks, limit);
            &&& b == all.take(if all.len() < limit { all.len() as int } else { limit as int })
            &&& t == (all.len() > limit)
        }),
    decreases chunks.len(),
{
    if chunks.len() > 0 {
        let p = chunks.drop_last();
        assert forall|i: int| 0 <= i < p.len() implies (#[trigger] p[i]).len() > 0 by {
            assert(p[i] == chunks[i]);
        }
        lemma_bounded_output(p, limit);
        let f = concat_all(p);
        let c = chunks.last();
        let all = f + c;
        assert(concat_all(chunks) == all);
        if f.len() < limit {
            assert(f.take(f.len() as int) =~= f);
            let room = (limit - f.len()) as nat;
            let take: nat = if room < c.len() { room } else { c.len() };
            assert(f + c.take(take as int) =~= all.take((f.len() + take) as int));
        } else {
            assert(f.take(limit as int) =~= all.take(limit as int));
        }
    }
}

/// A text that ends its last line: a newline is added unless the text is
/// empty or already ends with one.
pub open spec fn line_ended(s: Seq<char>) -> Seq<char> {
    if s.len() > 0 && s.last() != '\n' {
        s.push('\n')
    } else {
        s
    }
}

/// What a shell command printed, as shown in the chat: its standard output,
/// then its error output on a line of its own, then a notice when either
/// was cut at the limit.
pub open spec fn shell_output_text(out: Seq<char>, err: Seq<char>, truncated: bool) -> Seq<char> {
    let with_err = if err.len() > 0 {
        line_ended(out) + err
    } else {
        out
    };
    if truncated {
        line_ended(with_err) + "[output truncated]\n"@
    } else {
        with_err
    }
}

fn end_line(s: &mut String)
    ensures
        final(s)@ == line_ended(old(s)@),
{
    let cs = crate::text::chars_of(s.as_str());
    if cs.len() > 0 && cs[cs.len() - 1] != '\n' {
        crate::text::push_char(s, '\n');
    }
}

/// Joins the two outputs of a shell command for the chat.
pub fn combine_shell_output(stdout: &str, stderr: &str, truncated: bool) -> (s: String)
    ensures
        s@ == shell_output_text(stdout@, stderr@, truncated),
{
    let mut combined = crate::text::string_from_str(stdout);
    if crate::text::chars_of(stderr).len() > 0 {
        end_line(&mut combined);
        crate::text::push_str(&mut combined, stderr);
    }
    if truncated {
        end_line(&mut combined);
        crate::text::push_str(&mut combined, "[output truncated]\n");
    }
    combined
}

} // verus!
