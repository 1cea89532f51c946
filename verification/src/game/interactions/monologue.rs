use vstd::prelude::*;
use vstd::string::*;

use super::text::{lines_of, strip_cr, text_lines, lemma_lines_of_first_line, lemma_lines_of_last_line};

verus! {

/// The monologues an entity can speak, one line per interaction.
#[derive(Debug, Clone, Copy, PartialEq, Eq, Hash, Structural)]
pub enum MonologueId {
    Empty,
    Test,
}

/// Number of monologue ids.
pub const MONOLOGUE_COUNT: usize = 2;

impl MonologueId {
    /// Position of the id in tables indexed by monologue.
    pub open spec fn spec_index(self) -> nat {
        match self {
            MonologueId::Empty => 0,
            MonologueId::Test => 1,
        }
    }

    /// Position of the id in tables indexed by monologue; also the value it is hashed as.
    pub fn index(&self) -> (i: usize)
        ensures
            i == self.spec_index(),
            i < MONOLOGUE_COUNT,
    {
        match self {
            MonologueId::Empty => 0,
            MonologueId::Test => 1,
        }
    }

    /// The id that is used when none is given.
    pub fn default_id() -> (id: MonologueId)
        ensures
            id == MonologueId::Empty,
    {
        MonologueId::Empty
    }
}

/// A text said line by line; once the last line was said, it continues from `loop_index`.
#[derive(Debug)]
pub struct Monologue {
    pub loop_index: usize,
    pub text: String,
}

impl Monologue {
    /// The lines of the monologue.
    pub open spec fn lines(&self) -> Seq<Seq<char>> {
        lines_of(self.text@)
    }

    pub fn new(loop_index: usize, text: String) -> (m: Monologue)
        ensures
            m.loop_index == loop_index,
            m.text@ == text@,
    {
        Monologue { loop_index, text }
    }

    /// The line at `line`, if the monologue has that many lines.
    pub fn get(&self, line: usize) -> (r: Option<String>)
        ensures
            line < self.lines().len() ==> (r matches Some(l) && l@ == self.lines()[line as int]),
            line >= self.lines().len() ==> r is None,
    {
        let mut lines = text_lines(self.text.as_str());
        if line < lines.len() {
            let l = lines.swap_remove(line);
            Some(l)
        } else {
            None
        }
    }

    /// Number of lines of the monologue.
    pub fn len(&self) -> (n: usize)
        ensures
            n == self.lines().len(),
    {
        let lines = text_lines(self.text.as_str());
        lines.len()
    }
}


/// The lines of the test monologue: four lines, of which the last says where it loops.
pub open spec fn test_monologue_lines() -> Seq<Seq<char>> {
    seq!["First line"@, "Second line"@, "Third Line"@, "Last line, go back to third"@]
}

/// The text of the test monologue.
fn test_monologue_text() -> (text: String)
    ensures
        lines_of(text@) == test_monologue_lines(),
{
    let mut text = String::from_str("First line\n");
    text.append("Second line\n");
    text.append("Third Line\n");
    text.append("Last line, go back to third");
    proof {
        reveal_strlit("First line\n");
        reveal_strlit("Second line\n");
        reveal_strlit("Third Line\n");
        reveal_strlit("Last line, go back to third");
        let a = "First line\n"@;
        let b = "Second line\n"@;
        let c = "Third Line\n"@;
        let d = "Last line, go back to third"@;
        assert(text@ =~= a + (b + (c + d)));
        assert forall|j: int| 0 <= j < a.len() - 1 implies a[j] != '\n' by {}
        assert forall|j: int| 0 <= j < b.len() - 1 implies b[j] != '\n' by {}
        assert forall|j: int| 0 <= j < c.len() - 1 implies c[j] != '\n' by {}
        assert forall|j: int| 0 <= j < d.len() implies d[j] != '\n' by {}
        lemma_lines_of_first_line(a, b + (c + d));
        lemma_lines_of_first_line(b, c + d);
        lemma_lines_of_first_line(c, d);
        lemma_lines_of_last_line(d);
        reveal_strlit("First line");
        reveal_strlit("Second line");
        reveal_strlit("Third Line");
        assert(strip_cr(a.drop_last()) =~= "First line"@);
        assert(strip_cr(b.drop_last()) =~= "Second line"@);
        assert(strip_cr(c.drop_last()) =~= "Third Line"@);
        assert(lines_of(text@) =~= test_monologue_lines());
    }
    text
}


/// The position that follows `pos` in a monologue of `len` lines that loops back to
/// `loop_index` after its last line.
pub open spec fn next_position(pos: nat, len: nat, loop_index: nat) -> nat {
    if pos + 1 == len {
        loop_index
    } else {
        pos + 1
    }
}

/// Once a monologue has reached its loop, it stays there: every later line lies between the
/// loop line and the last line.
pub proof fn lemma_position_stays_in_loop(pos: nat, len: nat, loop_index: nat)
    requires
        loop_index <= pos < len,
    ensures
        loop_index <= next_position(pos, len, loop_index) < len,
{
}

/// Holds every monologue and how far each one has been said.
#[derive(Debug)]
pub struct MonologueServer {
    storage: Vec<Monologue>,
    progress: Vec<usize>,
}

impl MonologueServer {
    /// Every table has an entry per id, and every position and loop line lies within its
    /// monologue.
    pub closed spec fn wf(self) -> bool {
        &&& self.storage.len() == MONOLOGUE_COUNT
        &&& self.progress.len() == MONOLOGUE_COUNT
        &&& forall|i: int|
            0 <= i < MONOLOGUE_COUNT ==> {
                let len = #[trigger] self.storage[i].lines().len();
                &&& len > 0 ==> self.storage[i].loop_index < len && self.progress[i] < len
                &&& len == 0 ==> self.progress[i] == 0
            }
    }

    /// The lines of the monologue `id`.
    pub closed spec fn lines(self, id: MonologueId) -> Seq<Seq<char>> {
        self.storage[id.spec_index() as int].lines()
    }

    /// The line the monologue `id` continues from once its last line was said.
    pub closed spec fn loop_index(self, id: MonologueId) -> nat {
        self.storage[id.spec_index() as int].loop_index as nat
    }

    /// The text of the monologue `id`.
    pub closed spec fn text(self, id: MonologueId) -> Seq<char> {
        self.storage[id.spec_index() as int].text@
    }

    /// The line of monologue `id` that is said next.
    pub closed spec fn position(self, id: MonologueId) -> nat {
        self.progress[id.spec_index() as int] as nat
    }

    /// A server with every monologue at its first line: the empty monologue, with no text
    /// and looping to its first line, and the test monologue of four lines that loops back
    /// to its third line.
    pub fn new() -> (server: MonologueServer)
        ensures
            server.wf(),
            server.text(MonologueId::Empty) == Seq::<char>::empty(),
            server.lines(MonologueId::Empty) == Seq::<Seq<char>>::empty(),
            server.loop_index(MonologueId::Empty) == 0,
            server.lines(MonologueId::Test) == test_monologue_lines(),
            server.loop_index(MonologueId::Test) == 2,
            forall|id: MonologueId| server.position(id) == 0,
    {
        let empty = Monologue::new(0, String::new());
        let test = Monologue::new(2, test_monologue_text());
        let mut storage: Vec<Monologue> = Vec::new();
        storage.push(empty);
        storage.push(test);
        let mut progress: Vec<usize> = Vec::new();
        progress.push(0);
        progress.push(0);
        proof {
            assert(lines_of(storage[0].text@) == Seq::<Seq<char>>::empty());
        }
        MonologueServer { storage, progress }
    }

    /// How many lines the monologue `id` has.
    pub fn line_count(&self, id: &MonologueId) -> (n: usize)
        requires
            self.wf(),
        ensures
            n == self.lines(*id).len(),
    {
        self.storage[id.index()].len()
    }

    /// Says the next line of monologue `id` and moves on; after the last line the monologue
    /// continues from its loop line.
    pub fn next_line(&mut self, id: &MonologueId) -> (line: String)
        requires
            old(self).wf(),
            old(self).lines(*id).len() > 0,
        ensures
            final(self).wf(),
            line@ == old(self).lines(*id)[old(self).position(*id) as int],
            final(self).position(*id) == next_position(
                old(self).position(*id),
                old(self).lines(*id).len(),
                old(self).loop_index(*id),
            ),
            final(self).position(*id) < final(self).lines(*id).len(),
            old(self).loop_index(*id) < old(self).lines(*id).len(),
            forall|other: MonologueId|
                other != *id ==> final(self).position(other) == old(self).position(other),
            forall|any: MonologueId|
                final(self).lines(any) == old(self).lines(any) && final(self).loop_index(any)
                    == old(self).loop_index(any),
    {
        let i = id.index();
        let pos = self.progress[i];
        let line = match self.storage[i].get(pos) {
            Some(l) => l,
            None => String::new(),
        };
        let count = self.storage[i].len();
        let next = if pos + 1 == count {
            self.storage[i].loop_index
        } else {
            pos + 1
        };
        self.progress.set(i, next);
        line
    }
}

} // verus!
