//! The page of a live room: the newest chat messages of one room.
use crate::decimal::{decimal_text, format_u64};
use std::collections::VecDeque;
use vstd::prelude::*;
use vstd::string::StringExecFns;

verus! {

broadcast use vstd::std_specs::vecdeque::group_vec_dequeue_axioms;

/// How many messages a live room page keeps.
pub const DANMAKU_CAPACITY: usize = 64;

/// The value of `junk_flag` that marks a message as not worth showing.
pub const JUNK: u64 = 2;

/// The medal that a fan of some room wears.
#[derive(Clone, Debug, PartialEq, Eq)]
pub struct FansMedal {
    pub medal_name: String,
    pub medal_level: u64,
}

/// One chat message.
#[derive(Clone, Debug, PartialEq, Eq)]
pub struct Danmaku {
    pub junk_flag: u64,
    pub message: String,
    pub uname: String,
    pub fans_medal: Option<FansMedal>,
}

/// What a live room reports.
#[derive(Clone, Debug, PartialEq, Eq)]
pub enum LiveEvent {
    /// Somebody wrote a chat message.
    Danmaku(Danmaku),
    /// Anything else; the page does not show it.
    Other,
}

/// Where one message is drawn.
#[derive(Clone, Copy, Debug, PartialEq, Eq, Structural)]
pub struct Row {
    /// The line of the screen.
    pub line: u16,
    /// The position of the message in the page's buffer.
    pub index: usize,
}

/// The state of a live room session.
#[derive(Clone, Debug, PartialEq, Eq)]
pub struct LiveRoomPage {
    /// The newest messages, oldest first.
    pub danmaku_buffer: VecDeque<Danmaku>,
    pub roomid: u64,
}

impl FansMedal {
    /// The medal as shown beside a user name: the name, then the level in
    /// square brackets.
    pub open spec fn label_spec(self) -> Seq<char> {
        self.medal_name@ + seq!['['] + decimal_text(self.medal_level as nat) + seq![']']
    }

    /// The medal as shown beside a user name.
    pub fn label(&self) -> (text: String)
        ensures
            text@ == self.label_spec(),
    {
        let mut text = self.medal_name.clone();
        text.push('[');
        text.append(format_u64(self.medal_level).as_str());
        text.push(']');
        proof {
            assert(text@ =~= self.label_spec());
        }
        text
    }
}

impl Danmaku {
    /// Whether the page draws this message.
    pub open spec fn is_shown(self) -> bool {
        self.junk_flag != JUNK
    }
}

/// A buffer after `danmaku` has arrived: it goes to the end, and the oldest
/// message leaves where the buffer has grown beyond its capacity.
pub open spec fn pushed(buffer: Seq<Danmaku>, danmaku: Danmaku) -> Seq<Danmaku> {
    if buffer.len() + 1 > DANMAKU_CAPACITY {
        buffer.push(danmaku).skip(1)
    } else {
        buffer.push(danmaku)
    }
}

/// A buffer after the messages `arrivals` have arrived one after the other.
pub open spec fn pushed_all(buffer: Seq<Danmaku>, arrivals: Seq<Danmaku>) -> Seq<Danmaku>
    decreases arrivals.len(),
{
    if arrivals.len() == 0 {
        buffer
    } else {
        pushed(pushed_all(buffer, arrivals.drop_last()), arrivals.last())
    }
}

/// The newest `limit` entries of `all`, or all of them where there are fewer.
pub open spec fn newest(all: Seq<Danmaku>, limit: nat) -> Seq<Danmaku> {
    if all.len() > limit {
        all.skip(all.len() - limit)
    } else {
        all
    }
}

/// A buffer within its capacity holds, after any arrivals, the newest of all
/// its messages in the order they came, as many as the capacity allows.
pub proof fn lemma_pushed_all_keeps_newest(buffer: Seq<Danmaku>, arrivals: Seq<Danmaku>)
    requires
        buffer.len() <= DANMAKU_CAPACITY,
    ensures
        pushed_all(buffer, arrivals) == newest(buffer + arrivals, DANMAKU_CAPACITY as nat),
    decreases arrivals.len(),
{
    if arrivals.len() == 0 {
        assert(buffer + arrivals =~= buffer);
    } else {
        let earlier = arrivals.drop_last();
        lemma_pushed_all_keeps_newest(buffer, earlier);
        assert((buffer + earlier).push(arrivals.last()) =~= buffer + arrivals);
        assert(pushed_all(buffer, arrivals) =~= newest(
            buffer + arrivals,
            DANMAKU_CAPACITY as nat,
        ));
    }
}

/// The positions of the newest shown messages, at most `limit` of them, newest
/// first.
pub open spec fn newest_shown(buffer: Seq<Danmaku>, limit: nat) -> Seq<int>
    decreases buffer.len(),
{
    if buffer.len() == 0 || limit == 0 {
        Seq::empty()
    } else if !buffer.last().is_shown() {
        newest_shown(buffer.drop_last(), limit)
    } else {
        seq![buffer.len() - 1] + newest_shown(buffer.drop_last(), (limit - 1) as nat)
    }
}

/// What the newest shown messages are: no more than `limit` positions of shown
/// messages, from the newest down, and no shown message is passed over, whether
/// it lies between the listed ones or, while the limit is not reached, before
/// them.
pub proof fn lemma_newest_shown(buffer: Seq<Danmaku>, limit: nat)
    ensures
        newest_shown(buffer, limit).len() <= limit,
        newest_shown(buffer, limit).len() <= buffer.len(),
        forall|k: int|
            0 <= k < newest_shown(buffer, limit).len() ==> 0 <= #[trigger] newest_shown(
                buffer,
                limit,
            )[k] < buffer.len() && buffer[newest_shown(buffer, limit)[k]].is_shown(),
        forall|j: int, k: int|
            0 <= j < k < newest_shown(buffer, limit).len() ==> newest_shown(buffer, limit)[j]
                > newest_shown(buffer, limit)[k],
        forall|i: int|
            0 <= i < buffer.len() && (#[trigger] buffer[i]).is_shown() && (newest_shown(
                buffer,
                limit,
            ).len() < limit || (newest_shown(buffer, limit).len() > 0 && i >= newest_shown(
                buffer,
                limit,
            ).last())) ==> newest_shown(buffer, limit).contains(i),
    decreases buffer.len(),
{
    let shown = newest_shown(buffer, limit);
    if buffer.len() == 0 || limit == 0 {
    } else {
        let rest = buffer.drop_last();
        let newest = buffer.len() - 1;
        if !buffer.last().is_shown() {
            lemma_newest_shown(rest, limit);
            assert forall|i: int|
                0 <= i < buffer.len() && (#[trigger] buffer[i]).is_shown() && (shown.len() < limit
                    || (shown.len() > 0 && i >= shown.last())) implies shown.contains(i) by {
                assert(rest[i].is_shown());
            }
        } else {
            let older = newest_shown(rest, (limit - 1) as nat);
            lemma_newest_shown(rest, (limit - 1) as nat);
            assert(shown =~= seq![newest] + older);
            assert forall|k: int| 0 <= k < shown.len() implies 0 <= #[trigger] shown[k]
                < buffer.len() && buffer[shown[k]].is_shown() by {
                if k > 0 {
                    assert(shown[k] == older[k - 1]);
                }
            }
            assert forall|j: int, k: int| 0 <= j < k < shown.len() implies shown[j]
                > shown[k] by {
                assert(shown[k] == older[k - 1]);
                if j > 0 {
                    assert(shown[j] == older[j - 1]);
                }
            }
            assert forall|i: int|
                0 <= i < buffer.len() && (#[trigger] buffer[i]).is_shown() && (shown.len() < limit
                    || (shown.len() > 0 && i >= shown.last())) implies shown.contains(i) by {
                if i == newest {
                    assert(shown[0] == i);
                } else {
                    assert(rest[i].is_shown());
                    if older.len() > 0 {
                        assert(shown.last() == older.last());
                    }
                    assert(older.contains(i));
                    let k = choose|k: int| 0 <= k < older.len() && older[k] == i;
                    assert(shown[k + 1] == i);
                }
            }
        }
    }
}

/// The buffer positions that a sequence of rows names, row by row.
pub open spec fn row_indices(rows: Seq<Row>) -> Seq<int> {
    Seq::new(rows.len(), |k: int| rows[k].index as int)
}

/// The number of lines from `top` to just above `bottom`.
pub open spec fn line_count(top: u16, bottom: u16) -> nat {
    if bottom > top {
        (bottom - top) as nat
    } else {
        0
    }
}

impl LiveRoomPage {
    /// The page of room `roomid`, with no messages yet.
    pub fn new(roomid: u64) -> (page: Self)
        ensures
            page.roomid == roomid,
            page.danmaku_buffer@ == Seq::<Danmaku>::empty(),
    {
        LiveRoomPage { danmaku_buffer: VecDeque::new(), roomid }
    }

    /// Whether the page holds no more messages than it keeps.
    pub open spec fn within_capacity(self) -> bool {
        self.danmaku_buffer@.len() <= DANMAKU_CAPACITY
    }

    /// Takes in a message; the oldest one leaves a full page.
    pub fn push_danmaku(&mut self, danmaku: Danmaku)
        ensures
            final(self).roomid == old(self).roomid,
            final(self).danmaku_buffer@ == pushed(old(self).danmaku_buffer@, danmaku),
            old(self).within_capacity() ==> final(self).within_capacity(),
    {
        self.danmaku_buffer.push_back(danmaku);
        if self.danmaku_buffer.len() > DANMAKU_CAPACITY {
            self.danmaku_buffer.pop_front();
            assert(self.danmaku_buffer@ =~= old(self).danmaku_buffer@.push(danmaku).skip(1));
        }
    }

    /// Takes in what the room reports: a chat message is kept, anything else
    /// changes nothing.
    pub fn on_event(&mut self, event: LiveEvent)
        ensures
            final(self).roomid == old(self).roomid,
            final(self).danmaku_buffer@ == match event {
                LiveEvent::Danmaku(danmaku) => pushed(old(self).danmaku_buffer@, danmaku),
                LiveEvent::Other => old(self).danmaku_buffer@,
            },
            old(self).within_capacity() ==> final(self).within_capacity(),
    {
        match event {
            LiveEvent::Danmaku(danmaku) => self.push_danmaku(danmaku),
            LiveEvent::Other => {},
        }
    }

    /// Lays the messages out on the lines from `top` to just above `bottom`:
    /// the newest shown message on the lowest line, each older one a line
    /// higher, until the lines or the messages run out.
    pub fn visible_rows(&self, top: u16, bottom: u16) -> (rows: Vec<Row>)
        ensures
            row_indices(rows@) == newest_shown(self.danmaku_buffer@, line_count(top, bottom)),
            forall|k: int| 0 <= k < rows@.len() ==> (#[trigger] rows@[k]).line == bottom - 1 - k,
    {
        let mut rows: Vec<Row> = Vec::new();
        if bottom <= top {
            assert(row_indices(rows@) =~= Seq::<int>::empty());
            return rows;
        }
        let ghost buffer = self.danmaku_buffer@;
        let ghost limit = line_count(top, bottom);
        let mut line: u16 = bottom;
        let mut i: usize = self.danmaku_buffer.len();
        proof {
            assert(buffer.take(i as int) =~= buffer);
            assert(row_indices(rows@) + newest_shown(buffer, limit) =~= newest_shown(
                buffer,
                limit,
            ));
        }
        while i > 0 && line > top
            invariant
                buffer == self.danmaku_buffer@,
                limit == (bottom - top) as nat,
                i <= buffer.len(),
                top <= line <= bottom,
                rows@.len() == bottom - line,
                newest_shown(buffer, limit) == row_indices(rows@) + newest_shown(
                    buffer.take(i as int),
                    (line - top) as nat,
                ),
                forall|k: int|
                    0 <= k < rows@.len() ==> (#[trigger] rows@[k]).line == bottom - 1 - k,
            decreases i,
        {
            i = i - 1;
            proof {
                assert(buffer.take(i + 1).drop_last() =~= buffer.take(i as int));
                assert(buffer.take(i + 1).last() == buffer[i as int]);
            }
            if self.danmaku_buffer[i].junk_flag != JUNK {
                line = line - 1;
                let ghost before = rows@;
                rows.push(Row { line, index: i });
                proof {
                    assert(row_indices(rows@) =~= row_indices(before) + seq![i as int]);
                    assert(row_indices(rows@) + newest_shown(
                        buffer.take(i as int),
                        (line - top) as nat,
                    ) =~= row_indices(before) + (seq![i as int] + newest_shown(
                        buffer.take(i as int),
                        (line - top) as nat,
                    )));
                }
            }
        }
        proof {
            assert(newest_shown(buffer.take(i as int), (line - top) as nat) =~= Seq::<int>::empty())
                by {
                if i == 0 {
                    assert(buffer.take(0).len() == 0);
                }
            }
            assert(newest_shown(buffer, limit) =~= row_indices(rows@));
        }
        rows
    }
}

impl Default for LiveRoomPage {
    fn default() -> (page: Self)
        ensures
            page.roomid == 0,
            page.danmaku_buffer@ == Seq::<Danmaku>::empty(),
    {
        LiveRoomPage::new(0)
    }
}

} // verus!
