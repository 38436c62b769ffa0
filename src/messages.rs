use vstd::prelude::*;

verus! {

/// The text of a list of lines: each line followed by a newline.
pub open spec fn text_of(lines: Seq<Seq<char>>) -> Seq<char>
    decreases lines.len(),
{
    if lines.len() == 0 {
        Seq::empty()
    } else {
        text_of(lines.drop_last()) + lines.last() + seq!['\n']
    }
}

/// The lines that a list of messages holds, in order.
pub open spec fn lines_of(list: Seq<Message>) -> Seq<Seq<char>> {
    list.map_values(|m: Message| m.message@)
}

/// The lines that a pool of strings holds, in order.
pub open spec fn pool_lines(pool: Seq<String>) -> Seq<Seq<char>> {
    pool.map_values(|s: String| s@)
}

/// A message borrowed for `'msg`.
pub struct Message<'msg> {
    pub message: &'msg str,
}

/// Collects messages into a list that it borrows mutably.
///
/// `'a` (the borrow of the list) is covariant; `'msg` is invariant, being
/// inside the `&mut`. The two vary independently, so the list can be
/// borrowed for less time than its messages live.
pub struct MessageCollector<'a, 'msg> {
    pub list: &'a mut Vec<Message<'msg>>,
}

impl<'a, 'msg> MessageCollector<'a, 'msg> {
    /// Adds a message to the end of the list.
    pub fn add_message(&mut self, message: Message<'msg>)
        ensures
            (*final(self).list)@ == (*old(self).list)@.push(message),
            *final(final(self).list) == *final(old(self).list),
    {
        self.list.push(message);
    }
}

/// Displays a list of messages that it borrows.
///
/// Both `'a` and `'msg` are covariant, and they vary independently: the list
/// can be held for a shorter time than `'msg`, then released.
pub struct MessageDisplayer<'a, 'msg> {
    pub list: &'a Vec<Message<'msg>>,
}

impl<'a, 'msg> MessageDisplayer<'a, 'msg> {
    /// All the messages, each followed by a newline.
    pub fn to_string(&self) -> (r: String)
        ensures
            r@ == text_of(lines_of(self.list@)),
    {
        render(self.list)
    }
}

/// Displays a list of messages with one lifetime for the list and its
/// messages.
///
/// `'a` is used twice, both times covariantly, so it is covariant: a
/// `&'a Vec<Message<'msg>>` turns into the shorter `&'a Vec<Message<'a>>`.
pub struct SimpleMessageDisplayer<'a> {
    pub list: &'a Vec<Message<'a>>,
}

impl<'a> SimpleMessageDisplayer<'a> {
    /// All the messages, each followed by a newline.
    pub fn to_string(&self) -> (r: String)
        ensures
            r@ == text_of(lines_of(self.list@)),
    {
        render(self.list)
    }
}

/// Collects messages with one lifetime for the borrow of the list and for
/// its messages.
///
/// The first `'a` is covariant but the second sits inside the `&mut`, so
/// `'a` is invariant: the list stays borrowed for as long as its messages
/// live, and cannot be read again while they do.
pub struct SimpleMessageCollector<'a> {
    pub list: &'a mut Vec<Message<'a>>,
}

impl<'a> SimpleMessageCollector<'a> {
    /// Adds a message to the end of the list.
    pub fn add_message(&mut self, message: Message<'a>)
        ensures
            (*final(self).list)@ == (*old(self).list)@.push(message),
            *final(final(self).list) == *final(old(self).list),
    {
        self.list.push(message);
    }
}

/// Writes each message of the list followed by a newline.
fn render(list: &Vec<Message>) -> (r: String)
    ensures
        r@ == text_of(lines_of(list@)),
{
    let mut out = String::new();
    let mut i: usize = 0;
    while i < list.len()
        invariant
            i <= list@.len(),
            out@ == text_of(lines_of(list@.take(i as int))),
        decreases list@.len() - i,
    {
        proof {
            reveal_strlit("\n");
        }
        out.append(list[i].message);
        out.append("\n");
        assert(lines_of(list@.take(i + 1)).drop_last() =~= lines_of(list@.take(i as int)));
        i += 1;
    }
    assert(list@.take(i as int) =~= list@);
    out
}

/// Adds one message for each string of the pool, in the pool's order,
/// through a collector handed in by the caller.
pub fn collect_messages<'a, 'msg>(
    collector: &mut MessageCollector<'a, 'msg>,
    message_pool: &'msg Vec<String>,
)
    ensures
        lines_of((*final(collector).list)@) == lines_of((*old(collector).list)@) + pool_lines(
            message_pool@,
        ),
        *final(final(collector).list) == *final(old(collector).list),
{
    let ghost start = (*collector.list)@;
    let mut i: usize = 0;
    while i < message_pool.len()
        invariant
            i <= message_pool@.len(),
            lines_of((*collector.list)@) == lines_of(start) + pool_lines(
                message_pool@.take(i as int),
            ),
            *final(collector.list) == *final(old(collector).list),
        decreases message_pool@.len() - i,
    {
        let ghost before = (*collector.list)@;
        let message = Message { message: message_pool[i].as_str() };
        collector.add_message(message);
        assert(lines_of(before.push(message)) =~= lines_of(before).push(message.message@));
        assert(pool_lines(message_pool@.take(i + 1)) =~= pool_lines(
            message_pool@.take(i as int),
        ).push(message_pool@[i as int]@));
        i += 1;
    }
    assert(message_pool@.take(i as int) =~= message_pool@);
}

/// As `collect_messages`, through a `SimpleMessageCollector`. Its lifetime
/// is invariant, so the pool must be borrowed for exactly as long as the
/// list; once filled this way the list stays borrowed while the pool is.
pub fn collect_messages_simple<'a>(
    collector: &mut SimpleMessageCollector<'a>,
    message_pool: &'a Vec<String>,
)
    ensures
        lines_of((*final(collector).list)@) == lines_of((*old(collector).list)@) + pool_lines(
            message_pool@,
        ),
        *final(final(collector).list) == *final(old(collector).list),
{
    let ghost start = (*collector.list)@;
    let mut i: usize = 0;
    while i < message_pool.len()
        invariant
            i <= message_pool@.len(),
            lines_of((*collector.list)@) == lines_of(start) + pool_lines(
                message_pool@.take(i as int),
            ),
            *final(collector.list) == *final(old(collector).list),
        decreases message_pool@.len() - i,
    {
        let ghost before = (*collector.list)@;
        let message = Message { message: message_pool[i].as_str() };
        collector.add_message(message);
        assert(lines_of(before.push(message)) =~= lines_of(before).push(message.message@));
        assert(pool_lines(message_pool@.take(i + 1)) =~= pool_lines(
            message_pool@.take(i as int),
        ).push(message_pool@[i as int]@));
        i += 1;
    }
    assert(message_pool@.take(i as int) =~= message_pool@);
}

/// The messages of the pool, in order, gathered by a `MessageCollector`.
fn collect<'msg>(message_pool: &'msg Vec<String>) -> (list: Vec<Message<'msg>>)
    ensures
        lines_of(list@) == pool_lines(message_pool@),
{
    let mut list: Vec<Message<'msg>> = Vec::new();
    let mut collector = MessageCollector { list: &mut list };
    collect_messages(&mut collector, message_pool);
    assert(lines_of(Seq::<Message>::empty()) + pool_lines(message_pool@) =~= pool_lines(
        message_pool@,
    ));
    list
}

/// Collects the pool's strings as messages, then displays them with a
/// `MessageDisplayer`: the text has each string of the pool, in order, each
/// followed by a newline.
pub fn collect_and_display<'msg>(message_pool: &'msg Vec<String>) -> (r: String)
    ensures
        r@ == text_of(pool_lines(message_pool@)),
{
    let list = collect(message_pool);
    let displayer = MessageDisplayer { list: &list };
    displayer.to_string()
}

/// As `collect_and_display`, with a `SimpleMessageDisplayer`: its single
/// covariant lifetime shrinks to the borrow of the list.
pub fn collect_and_display_2<'msg>(message_pool: &'msg Vec<String>) -> (r: String)
    ensures
        r@ == text_of(pool_lines(message_pool@)),
{
    let list = collect(message_pool);
    let displayer = SimpleMessageDisplayer { list: &list };
    displayer.to_string()
}

/// Collects and displays a pool of two messages, "ten" and "twenty".
pub fn message_example() -> (r: String)
    ensures
        r@ == "ten\ntwenty\n"@,
{
    let mut message_pool: Vec<String> = Vec::new();
    message_pool.push("ten".to_owned());
    message_pool.push("twenty".to_owned());
    let r = collect_and_display(&message_pool);
    proof {
        reveal_strlit("ten");
        reveal_strlit("twenty");
        reveal_strlit("ten\ntwenty\n");
        let lines = pool_lines(message_pool@);
        assert(lines.len() == 2 && lines[0] == "ten"@ && lines[1] == "twenty"@);
        assert(lines.drop_last() =~= seq![lines[0]]);
        assert(lines.drop_last().drop_last() =~= Seq::<Seq<char>>::empty());
        reveal_with_fuel(text_of, 3);
        assert(text_of(lines) =~= "ten\ntwenty\n"@);
    }
    r
}

} // verus!
