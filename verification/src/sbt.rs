//! Formatting of sbt command lines.

use vstd::prelude::*;
use vstd::string::*;

verus! {

/// The views of a slice of string slices.
pub open spec fn str_views(tasks: Seq<&str>) -> Seq<Seq<char>> {
    tasks.map_values(|t: &str| t@)
}

/// Every task preceded by a single space, in order.
pub open spec fn space_separated(tasks: Seq<Seq<char>>) -> Seq<char>
    decreases tasks.len(),
{
    if tasks.len() == 0 {
        Seq::empty()
    } else {
        space_separated(tasks.drop_last()) + seq![' '] + tasks.last()
    }
}

/// The sbt command `all t1 t2 ...` that runs the given tasks concurrently.
pub open spec fn concurrent_command(tasks: Seq<Seq<char>>) -> Seq<char> {
    seq!['a', 'l', 'l'] + space_separated(tasks)
}

/// The sbt command for the tasks `tasks[lo..hi]`.
fn command_for_range(tasks: &[&str], lo: usize, hi: usize) -> (res: String)
    requires
        lo <= hi <= tasks@.len(),
    ensures
        res@ == concurrent_command(str_views(tasks@).subrange(lo as int, hi as int)),
{
    let ghost views = str_views(tasks@);
    let mut res = String::from_str("all");
    proof {
        reveal_strlit("all");
        reveal_strlit(" ");
        assert(views.subrange(lo as int, lo as int) =~= Seq::<Seq<char>>::empty());
    }
    let mut i = lo;
    while i < hi
        invariant
            lo <= i <= hi <= tasks@.len(),
            views == str_views(tasks@),
            res@ == concurrent_command(views.subrange(lo as int, i as int)),
        decreases hi - i,
    {
        res.append(" ");
        res.append(tasks[i]);
        proof {
            let next = views.subrange(lo as int, i + 1);
            assert(next.drop_last() =~= views.subrange(lo as int, i as int));
            assert(next.last() == tasks@[i as int]@);
            reveal_strlit(" ");
            assert(space_separated(next) == space_separated(next.drop_last()) + seq![' ']
                + next.last());
            assert(res@ =~= concurrent_command(next));
        }
        i = i + 1;
    }
    res
}


/// The views of a sequence of owned strings.
pub open spec fn string_views(v: Seq<String>) -> Seq<Seq<char>> {
    v.map_values(|s: String| s@)
}

/// `s` cut into consecutive pieces of `size` items; only the last piece may be shorter.
pub open spec fn chunks<A>(s: Seq<A>, size: nat) -> Seq<Seq<A>>
    decreases s.len(),
{
    if s.len() == 0 || size == 0 {
        Seq::empty()
    } else if s.len() <= size {
        seq![s]
    } else {
        seq![s.take(size as int)] + chunks(s.skip(size as int), size)
    }
}

/// The chunk size actually used: a requested size of zero means one chunk for everything.
pub open spec fn effective_chunk_size(n: nat, chunk_size: nat) -> nat {
    if chunk_size == 0 { n } else { chunk_size }
}

/// One concurrent command per chunk of at most `chunk_size` tasks.
pub open spec fn chunked_commands(tasks: Seq<Seq<char>>, chunk_size: nat) -> Seq<Seq<char>> {
    chunks(tasks, effective_chunk_size(tasks.len(), chunk_size)).map_values(
        |chunk: Seq<Seq<char>>| concurrent_command(chunk),
    )
}

/// The build tool sbt.
#[derive(Clone, Copy, Debug, Default)]
pub struct Sbt;

impl Sbt {
    /// The name of the sbt executable.
    pub fn executable_name(&self) -> (name: &'static str)
        ensures
            name@ == "sbt"@,
    {
        "sbt"
    }

    /// Format a string with a command that will execute all the given tasks concurrently.
    pub fn concurrent_tasks(tasks: &[&str]) -> (res: String)
        ensures
            res@ == concurrent_command(str_views(tasks@)),
    {
        let res = command_for_range(tasks, 0, tasks.len());
        proof {
            assert(str_views(tasks@).subrange(0, tasks@.len() as int) =~= str_views(tasks@));
        }
        res
    }

    /// Format a string with a command that will execute all the given tasks concurrently with a maximum number of cores defined by chunk_size.
    ///
    /// A `chunk_size` of zero puts all tasks into one command.
    pub fn concurrent_tasks_chunked(tasks: &Vec<&str>, chunk_size: usize) -> (res: Vec<String>)
        requires
            chunk_size > 0 || tasks@.len() > 0,
        ensures
            string_views(res@) == chunked_commands(str_views(tasks@), chunk_size as nat),
    {
        let n = tasks.len();
        let size = if chunk_size == 0 { n } else { chunk_size };
        let ghost views = str_views(tasks@);
        let ghost cmd = |chunk: Seq<Seq<char>>| concurrent_command(chunk);
        let ghost target = chunks(views, size as nat).map_values(cmd);
        let mut res: Vec<String> = Vec::new();
        let mut lo: usize = 0;
        proof {
            assert(views.skip(0) =~= views);
        }
        while lo < n
            invariant
                n == tasks@.len(),
                size > 0,
                lo <= n,
                views == str_views(tasks@),
                cmd == (|chunk: Seq<Seq<char>>| concurrent_command(chunk)),
                target == chunks(views, size as nat).map_values(cmd),
                string_views(res@) + chunks(views.skip(lo as int), size as nat).map_values(cmd)
                    == target,
            decreases n - lo,
        {
            let hi = if n - lo <= size { n } else { lo + size };
            let command = command_for_range(tasks.as_slice(), lo, hi);
            proof {
                let rest = views.skip(lo as int);
                assert(rest.take((hi - lo) as int) =~= views.subrange(lo as int, hi as int));
                assert(rest.skip((hi - lo) as int) =~= views.skip(hi as int));
                if n - lo <= size {
                    assert(rest.take((hi - lo) as int) =~= rest);
                    assert(chunks(views.skip(hi as int), size as nat) =~= Seq::empty());
                    assert(chunks(rest, size as nat) == seq![rest]);
                } else {
                    assert(chunks(rest, size as nat) == seq![rest.take(size as int)] + chunks(
                        rest.skip(size as int),
                        size as nat,
                    ));
                }
                assert(chunks(rest, size as nat) =~= seq![views.subrange(lo as int, hi as int)]
                    + chunks(views.skip(hi as int), size as nat));
            }
            let ghost old_res = res@;
            res.push(command);
            proof {
                let rest = views.skip(lo as int);
                let head = seq![views.subrange(lo as int, hi as int)];
                let tail = chunks(views.skip(hi as int), size as nat);
                assert((head + tail).map_values(cmd) =~= head.map_values(cmd) + tail.map_values(
                    cmd,
                ));
                assert(string_views(res@) =~= string_views(old_res) + head.map_values(cmd));
            }
            lo = hi;
        }
        proof {
            assert(views.skip(n as int) =~= Seq::<Seq<char>>::empty());
            assert(string_views(res@) =~= target);
        }
        res
    }
}


/// The name of an sbt task.
#[derive(Clone, Debug, PartialEq, Eq, Hash, PartialOrd, Ord)]
pub struct Task(pub String);

impl Task {
    /// Wraps the given task name.
    pub fn new(inner: String) -> (task: Task)
        ensures
            task.0@ == inner@,
    {
        Task(inner)
    }
}

/// A borrowed sbt task name.
#[derive(Debug, PartialEq, Eq, Hash, PartialOrd, Ord)]
pub struct TaskRef<'a>(pub &'a str);

/// The command-line argument `-D<name>=<value>` for a JVM system property.
pub open spec fn property_argument(name: Seq<char>, value: Seq<char>) -> Seq<char> {
    seq!['-', 'D'] + name + seq!['='] + value
}

/// A JVM system property passed to sbt.
#[derive(Clone, Debug)]
pub struct SystemProperty {
    pub name: String,
    pub value: String,
}

impl SystemProperty {
    /// A property with the given name and value.
    pub fn new(name: String, value: String) -> (property: SystemProperty)
        ensures
            property.name@ == name@,
            property.value@ == value@,
    {
        SystemProperty { name, value }
    }

    /// The command-line arguments that set this property: the single argument
    /// `-D<name>=<value>`.
    pub fn into_iter(&self) -> (args: Vec<String>)
        ensures
            string_views(args@) == seq![property_argument(self.name@, self.value@)],
    {
        let mut arg = String::from_str("-D");
        arg.append(self.name.as_str());
        arg.append("=");
        arg.append(self.value.as_str());
        proof {
            reveal_strlit("-D");
            reveal_strlit("=");
            assert(arg@ =~= property_argument(self.name@, self.value@));
        }
        let mut args: Vec<String> = Vec::new();
        args.push(arg);
        proof {
            assert(string_views(args@) =~= seq![property_argument(self.name@, self.value@)]);
        }
        args
    }
}


/// Cutting into chunks loses, duplicates and reorders nothing: the chunks,
/// concatenated in order, give back the original tasks.
pub proof fn lemma_chunks_flatten<A>(s: Seq<A>, size: nat)
    requires
        size > 0,
    ensures
        chunks(s, size).flatten() == s,
    decreases s.len(),
{
    if s.len() == 0 {
    } else if s.len() <= size {
        let c = chunks(s, size);
        assert(c.drop_first() =~= Seq::<Seq<A>>::empty());
        assert(c.drop_first().flatten() =~= Seq::<A>::empty());
        assert(c.flatten() =~= s);
    } else {
        let rest = s.skip(size as int);
        lemma_chunks_flatten(rest, size);
        let c = chunks(s, size);
        assert(c.first() == s.take(size as int));
        assert(c.drop_first() =~= chunks(rest, size));
        assert(c.flatten() =~= s);
    }
}

/// Every chunk holds at least one and at most `size` tasks, and every chunk but
/// the last holds exactly `size` tasks.
pub proof fn lemma_chunks_sizes<A>(s: Seq<A>, size: nat)
    requires
        size > 0,
    ensures
        forall|i: int|
            0 <= i < chunks(s, size).len() ==> 0 < #[trigger] chunks(s, size)[i].len() <= size,
        forall|i: int|
            0 <= i < chunks(s, size).len() - 1 ==> #[trigger] chunks(s, size)[i].len() == size,
    decreases s.len(),
{
    if s.len() > size {
        let rest = s.skip(size as int);
        lemma_chunks_sizes(rest, size);
        let c = chunks(s, size);
        assert forall|i: int| 0 < i < c.len() implies c[i] == chunks(rest, size)[i - 1] by {}
    }
}

/// The number of chunks is the number of tasks divided by `size`, rounded up.
pub proof fn lemma_chunks_count<A>(s: Seq<A>, size: nat)
    requires
        size > 0,
    ensures
        chunks(s, size).len() == (s.len() + size - 1) / (size as int),
    decreases s.len(),
{
    let n = s.len() as int;
    let c = size as int;
    if n == 0 {
        assert((c - 1) / c == 0) by (nonlinear_arith)
            requires
                c > 0,
        ;
    } else if n <= c {
        assert((n + c - 1) / c == 1) by (nonlinear_arith)
            requires
                0 < n <= c,
        ;
    } else {
        lemma_chunks_count(s.skip(size as int), size);
        assert((n + c - 1) / c == (n - c + c - 1) / c + 1) by (nonlinear_arith)
            requires
                n > c > 0,
        ;
    }
}

/// With a chunk size of zero, or one at least as large as the number of tasks,
/// a non-empty list of tasks gives exactly one command: the one that
/// `concurrent_tasks` gives.
pub proof fn lemma_single_chunk(tasks: Seq<Seq<char>>, chunk_size: nat)
    requires
        tasks.len() > 0,
        chunk_size == 0 || chunk_size >= tasks.len(),
    ensures
        chunked_commands(tasks, chunk_size) == seq![concurrent_command(tasks)],
{
    assert(chunked_commands(tasks, chunk_size) =~= seq![concurrent_command(tasks)]);
}


/// `s` split at every space, as `str::split(' ')` splits it: `n` spaces give
/// `n + 1` pieces, empty ones included.
pub open spec fn split_spaces(s: Seq<char>) -> Seq<Seq<char>>
    decreases s.len(),
{
    if s.len() == 0 {
        seq![Seq::empty()]
    } else {
        let rest = split_spaces(s.drop_first());
        if s[0] == ' ' {
            seq![Seq::empty()] + rest
        } else {
            rest.update(0, seq![s[0]] + rest[0])
        }
    }
}

/// A piece without spaces splits into itself.
pub proof fn lemma_split_without_spaces(s: Seq<char>)
    requires
        !s.contains(' '),
    ensures
        split_spaces(s) == seq![s],
    decreases s.len(),
{
    if s.len() > 0 {
        let t = s.drop_first();
        assert(!t.contains(' ')) by {
            if t.contains(' ') {
                let i = choose|i: int| 0 <= i < t.len() && t[i] == ' ';
                assert(s[i + 1] == ' ');
            }
        }
        lemma_split_without_spaces(t);
        assert(s[0] != ' ');
        assert(seq![s[0]] + t =~= s);
        assert(split_spaces(s) =~= seq![s]);
    } else {
        assert(s =~= Seq::<char>::empty());
    }
}

/// Splitting never gives an empty list of pieces.
pub proof fn lemma_split_nonempty(s: Seq<char>)
    ensures
        split_spaces(s).len() >= 1,
    decreases s.len(),
{
    if s.len() > 0 {
        lemma_split_nonempty(s.drop_first());
    }
}

/// A space followed by a piece without spaces adds that piece after the
/// pieces before the space.
pub proof fn lemma_split_append(a: Seq<char>, b: Seq<char>)
    requires
        !b.contains(' '),
    ensures
        split_spaces(a + seq![' '] + b) == split_spaces(a) + seq![b],
    decreases a.len(),
{
    let whole = a + seq![' '] + b;
    if a.len() == 0 {
        assert(whole =~= seq![' '] + b);
        assert(whole.drop_first() =~= b);
        lemma_split_without_spaces(b);
        assert(split_spaces(whole) =~= split_spaces(a) + seq![b]);
    } else {
        let a1 = a.drop_first();
        assert(whole.drop_first() =~= a1 + seq![' '] + b);
        lemma_split_append(a1, b);
        lemma_split_nonempty(a1);
        let rest = split_spaces(a1) + seq![b];
        if a[0] == ' ' {
            assert(split_spaces(whole) =~= split_spaces(a) + seq![b]);
        } else {
            assert(rest.update(0, seq![a[0]] + rest[0]) =~= split_spaces(a1).update(
                0,
                seq![a[0]] + split_spaces(a1)[0],
            ) + seq![b]);
            assert(split_spaces(whole) =~= split_spaces(a) + seq![b]);
        }
    }
}

/// Splitting a concurrent command at its spaces gives back `all` followed by
/// the tasks, in order, when no task holds a space.
pub proof fn lemma_split_recovers_tasks(tasks: Seq<Seq<char>>)
    requires
        forall|i: int| 0 <= i < tasks.len() ==> !(#[trigger] tasks[i]).contains(' '),
    ensures
        split_spaces(concurrent_command(tasks)) == seq![seq!['a', 'l', 'l']] + tasks,
    decreases tasks.len(),
{
    let all = seq!['a', 'l', 'l'];
    if tasks.len() == 0 {
        assert(!all.contains(' ')) by {
            if all.contains(' ') {
                let i = choose|i: int| 0 <= i < all.len() && all[i] == ' ';
                assert(all[i] == ' ');
            }
        }
        lemma_split_without_spaces(all);
        assert(concurrent_command(tasks) =~= all);
        assert(seq![all] + tasks =~= seq![all]);
    } else {
        let init = tasks.drop_last();
        assert forall|i: int| 0 <= i < init.len() implies !(#[trigger] init[i]).contains(' ') by {
            assert(init[i] == tasks[i]);
        }
        lemma_split_recovers_tasks(init);
        let last = tasks.last();
        assert(!last.contains(' ')) by {
            assert(last == tasks[tasks.len() - 1]);
        }
        let prefix = concurrent_command(init);
        assert(concurrent_command(tasks) =~= prefix + seq![' '] + last);
        lemma_split_append(prefix, last);
        assert(seq![all] + init + seq![last] =~= seq![all] + tasks);
    }
}

} // verus!
