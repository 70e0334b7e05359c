//! A fixed-capacity FIFO window over the most recent output lines.

use vstd::prelude::*;

verus! {

/// Rolling buffer of at most `size` lines.
///
/// Pushing past capacity evicts the oldest entry; `dump` joins the contents
/// with newlines, oldest line first, for injection into a log monitor's test
/// command environment.
#[derive(Clone, Debug)]
pub struct RollingBuffer {
    pub lines: Vec<String>,
    pub size: usize,
}

impl RollingBuffer {
    /// The buffer never holds more lines than its capacity.
    pub open spec fn wf(&self) -> bool {
        self.lines@.len() <= self.size
    }

    /// What one push leaves in a buffer of the given capacity.
    pub open spec fn spec_push(lines: Seq<Seq<char>>, size: nat, line: Seq<char>) -> Seq<
        Seq<char>,
    > {
        if size == 0 {
            lines
        } else if lines.len() < size {
            lines.push(line)
        } else {
            lines.skip(1).push(line)
        }
    }

    /// What a sequence of pushes leaves in the buffer.
    pub open spec fn spec_push_all(
        lines: Seq<Seq<char>>,
        size: nat,
        pushed: Seq<Seq<char>>,
    ) -> Seq<Seq<char>>
        decreases pushed.len(),
    {
        if pushed.len() == 0 {
            lines
        } else {
            Self::spec_push_all(Self::spec_push(lines, size, pushed[0]), size, pushed.skip(1))
        }
    }

    /// The buffer contents joined with newlines, oldest first.
    pub open spec fn spec_joined(lines: Seq<Seq<char>>) -> Seq<char>
        decreases lines.len(),
    {
        if lines.len() == 0 {
            Seq::<char>::empty()
        } else if lines.len() == 1 {
            lines[0]
        } else {
            lines[0] + seq!['\n'] + Self::spec_joined(lines.skip(1))
        }
    }

    pub fn new(size: usize) -> (r: Self)
        ensures
            r.lines.deep_view() == Seq::<Seq<char>>::empty(),
            r.size == size,
            r.wf(),
    {
        let r = RollingBuffer { lines: Vec::new(), size };
        proof {
            assert(r.lines.deep_view() =~= Seq::<Seq<char>>::empty());
        }
        r
    }

    /// Appends a line, evicting the oldest once the buffer is full.
    pub fn push(&mut self, line: String)
        requires
            old(self).wf(),
        ensures
            final(self).wf(),
            final(self).size == old(self).size,
            final(self).lines.deep_view() == Self::spec_push(
                old(self).lines.deep_view(),
                old(self).size as nat,
                line@,
            ),
    {
        if self.size == 0 {
            return ;
        }
        if self.lines.len() == self.size {
            self.lines.remove(0);
            self.lines.push(line);
            proof {
                assert(self.lines.deep_view() =~= old(self).lines.deep_view().skip(1).push(
                    line@,
                ));
            }
        } else {
            self.lines.push(line);
            proof {
                assert(self.lines.deep_view() =~= old(self).lines.deep_view().push(line@));
            }
        }
    }

    /// Joins the buffer contents with newlines, oldest line first.
    pub fn dump(&self) -> (r: String)
        ensures
            r@ == Self::spec_joined(self.lines.deep_view()),
    {
        let mut out = String::new();
        let mut i: usize = 0;
        while i < self.lines.len()
            invariant
                i <= self.lines@.len(),
                out@ == Self::spec_joined(self.lines.deep_view().take(i as int)),
            decreases self.lines@.len() - i,
        {
            if i > 0 {
                out.append("\n");
            }
            out.append(self.lines[i].as_str());
            proof {
                reveal_strlit("\n");
                assert("\n"@ =~= seq!['\n']);
                lemma_joined_take_step(self.lines.deep_view(), i as int);
            }
            i = i + 1;
        }
        proof {
            assert(self.lines.deep_view().take(self.lines@.len() as int) =~= self
                .lines
                .deep_view());
        }
        out
    }
}

/// Extending the joined prefix by one line appends a separator exactly when
/// the prefix was non-empty.
proof fn lemma_joined_take_step(lines: Seq<Seq<char>>, i: int)
    requires
        0 <= i < lines.len(),
    ensures
        RollingBuffer::spec_joined(lines.take(i + 1)) == if i == 0 {
            lines[0]
        } else {
            RollingBuffer::spec_joined(lines.take(i)) + seq!['\n'] + lines[i]
        },
    decreases i,
{
    if i == 0 {
        assert(lines.take(1) =~= seq![lines[0]]);
    } else {
        let rest = lines.skip(1);
        lemma_joined_take_step(rest, i - 1);
        assert(lines.take(i + 1).skip(1) =~= rest.take(i));
        assert(lines.take(i + 1)[0] == lines[0]);
        assert(rest[i - 1] == lines[i]);
        if i == 1 {
            assert(lines.take(1) =~= seq![lines[0]]);
            assert(rest.take(1) =~= seq![rest[0]]);
            assert(RollingBuffer::spec_joined(rest.take(1)) == rest[0]);
        } else {
            assert(lines.take(i).skip(1) =~= rest.take(i - 1));
            assert(lines.take(i)[0] == lines[0]);
            assert(RollingBuffer::spec_joined(lines.take(i)) == lines[0] + seq!['\n']
                + RollingBuffer::spec_joined(rest.take(i - 1)));
            assert((lines[0] + seq!['\n'] + (RollingBuffer::spec_joined(rest.take(i - 1))
                + seq!['\n'] + lines[i])) =~= (RollingBuffer::spec_joined(lines.take(i))
                + seq!['\n'] + lines[i]));
        }
    }
}

/// Pushing `size + 1` lines into an empty buffer of capacity `size` leaves
/// exactly the last `size` lines, the oldest evicted first.
pub proof fn lemma_fifo_eviction(size: nat, pushed: Seq<Seq<char>>)
    requires
        pushed.len() == size + 1,
    ensures
        RollingBuffer::spec_push_all(Seq::<Seq<char>>::empty(), size, pushed) == pushed.skip(1),
{
    lemma_push_all_window(Seq::<Seq<char>>::empty(), size, pushed);
    assert((Seq::<Seq<char>>::empty() + pushed) =~= pushed);
}

/// After any sequence of pushes, the buffer holds the last `size` lines of
/// everything it ever saw.
pub proof fn lemma_push_all_window(lines: Seq<Seq<char>>, size: nat, pushed: Seq<Seq<char>>)
    requires
        lines.len() <= size,
    ensures
        RollingBuffer::spec_push_all(lines, size, pushed) == (lines + pushed).skip(
            if lines.len() + pushed.len() > size {
                lines.len() + pushed.len() - size
            } else {
                0
            },
        ),
    decreases pushed.len(),
{
    let all = lines + pushed;
    let cut = if lines.len() + pushed.len() > size {
        lines.len() + pushed.len() - size
    } else {
        0
    };
    if pushed.len() == 0 {
        assert(all.skip(0) =~= lines);
    } else {
        let stepped = RollingBuffer::spec_push(lines, size, pushed[0]);
        assert(stepped.len() <= size);
        lemma_push_all_window(stepped, size, pushed.skip(1));
        if size == 0 {
            assert(lines.len() == 0);
            assert(stepped =~= lines);
            assert((stepped + pushed.skip(1)) =~= all.skip(1));
        } else if lines.len() < size {
            assert(stepped =~= lines.push(pushed[0]));
            assert((stepped + pushed.skip(1)) =~= all);
        } else {
            assert(stepped =~= lines.skip(1).push(pushed[0]));
            assert((stepped + pushed.skip(1)) =~= all.skip(1));
        }
        assert(RollingBuffer::spec_push_all(lines, size, pushed) =~= all.skip(cut as int));
    }
}

} // verus!
