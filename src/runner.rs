//! The decisions of one run of an outside command: whether it runs at all,
//! what a dry run prints, what the run reports when it ends, and what it
//! appends to a log file.
use vstd::prelude::*;
use crate::log::{block_of, EntryView};

verus! {

/// How one command is run. It does not change during the run.
pub struct RunConfig {
    /// Only error lines are shown and logged.
    pub error_only: bool,
    /// Nothing is run: the command is printed instead.
    pub dry_run: bool,
    /// The file that the run's output is appended to, if any.
    pub log_path: Option<String>,
}

/// The result of one run of a command.
#[derive(Clone, Copy, Debug, PartialEq, Eq, Structural)]
pub struct ExitOutcome {
    /// The command exited with status zero.
    pub success: bool,
    /// The exit code of the command; `None` when it ended without one
    /// (killed by a signal).
    pub raw_status: Option<i32>,
}

/// How a run begins.
pub enum RunStart {
    /// Nothing is spawned: `text` is printed and `outcome` returned.
    DryRun { text: String, outcome: ExitOutcome },
    /// The command is spawned with both output streams piped.
    Spawn,
}

/// What a dry run prints before the command.
pub const DRY_RUN_TAG: &'static str = "[DRY_RUN] ";

/// One character as it stands between quotes.
pub open spec fn escape_char(c: char) -> Seq<char> {
    if c == '\\' {
        seq!['\\', '\\']
    } else if c == '"' {
        seq!['\\', '"']
    } else {
        seq![c]
    }
}

/// A word with its backslashes and quotes escaped.
pub open spec fn escaped(s: Seq<char>) -> Seq<char>
    decreases s.len(),
{
    if s.len() == 0 {
        Seq::empty()
    } else {
        escaped(s.drop_last()) + escape_char(s.last())
    }
}

/// A word between double quotes.
pub open spec fn quoted(s: Seq<char>) -> Seq<char> {
    seq!['"'] + escaped(s) + seq!['"']
}

/// The words of a command line, each quoted, separated by single spaces.
pub open spec fn argv_text(words: Seq<Seq<char>>) -> Seq<char>
    decreases words.len(),
{
    if words.len() == 0 {
        Seq::empty()
    } else if words.len() == 1 {
        quoted(words[0])
    } else {
        argv_text(words.drop_last()) + seq![' '] + quoted(words.last())
    }
}

/// The views of a list of strings.
pub open spec fn views(v: Seq<String>) -> Seq<Seq<char>> {
    v.map_values(|s: String| s@)
}

/// The program followed by its arguments.
pub open spec fn argv(program: Seq<char>, args: Seq<String>) -> Seq<Seq<char>> {
    seq![program] + views(args)
}

/// What a dry run prints for a command.
pub open spec fn dry_run_text(program: Seq<char>, args: Seq<String>) -> Seq<char> {
    DRY_RUN_TAG@ + argv_text(argv(program, args))
}

/// What a log file holds after a block has been appended to it.
pub open spec fn appended(file: Seq<char>, block: Seq<char>) -> Seq<char> {
    file + block
}

/// Appends `s` to `out` between double quotes, escaping backslashes and quotes.
pub fn push_quoted(out: &mut String, s: &str)
    ensures
        final(out)@ == old(out)@ + quoted(s@),
{
    let n = s.unicode_len();
    let ghost start = out@;
    out.append("\"");
    proof {
        reveal_strlit("\"");
        assert(s@.subrange(0, 0) =~= Seq::<char>::empty());
    }
    let mut i: usize = 0;
    while i < n
        invariant
            n == s@.len(),
            i <= n,
            out@ == start + seq!['"'] + escaped(s@.subrange(0, i as int)),
        decreases n - i,
    {
        let c = s.get_char(i);
        let ghost prev = out@;
        proof {
            assert(s@.subrange(0, i + 1).drop_last() =~= s@.subrange(0, i as int));
            assert(s@.subrange(0, i + 1).last() == c);
        }
        if c == '\\' {
            out.append("\\\\");
            proof {
                reveal_strlit("\\\\");
            }
            assert(out@ =~= prev + escape_char(c));
        } else if c == '"' {
            out.append("\\\"");
            proof {
                reveal_strlit("\\\"");
            }
            assert(out@ =~= prev + escape_char(c));
        } else {
            out.append(s.substring_char(i, i + 1));
            assert(out@ =~= prev + escape_char(c));
        }
        assert(out@ =~= start + seq!['"'] + escaped(s@.subrange(0, i + 1)));
        i = i + 1;
    }
    out.append("\"");
    assert(s@.subrange(0, n as int) =~= s@);
}

/// The command line that a dry run prints: the tag, then the program and
/// each argument in quotes, separated by spaces.
pub fn command_text(program: &str, args: &Vec<String>) -> (r: String)
    ensures
        r@ == dry_run_text(program@, args@),
{
    let mut r = String::from_str(DRY_RUN_TAG);
    push_quoted(&mut r, program);
    proof {
        assert(argv(program@, args@).subrange(0, 1) =~= seq![program@]);
    }
    let mut i: usize = 0;
    while i < args.len()
        invariant
            i <= args@.len(),
            r@ == DRY_RUN_TAG@ + argv_text(argv(program@, args@).subrange(0, i + 1)),
        decreases args@.len() - i,
    {
        let ghost prev = r@;
        let ghost w = argv(program@, args@).subrange(0, i + 2);
        proof {
            assert(w.drop_last() =~= argv(program@, args@).subrange(0, i + 1));
            assert(w.last() == args@[i as int]@);
        }
        r.append(" ");
        proof {
            reveal_strlit(" ");
        }
        push_quoted(&mut r, args[i].as_str());
        assert(r@ =~= DRY_RUN_TAG@ + argv_text(w));
        i = i + 1;
    }
    assert(argv(program@, args@).subrange(0, i + 1) =~= argv(program@, args@));
    r
}

impl ExitOutcome {
    /// The outcome of a command that exited with `code` (`None`: no code).
    pub fn from_code(code: Option<i32>) -> (r: ExitOutcome)
        ensures
            r.success == (code == Some(0i32)),
            r.raw_status == code,
    {
        let success = match code {
            Some(c) => c == 0,
            None => false,
        };
        ExitOutcome { success, raw_status: code }
    }

    /// The outcome that a dry run reports: success, with code zero.
    pub fn dry_run() -> (r: ExitOutcome)
        ensures
            r.success,
            r.raw_status == Some(0i32),
    {
        ExitOutcome { success: true, raw_status: Some(0) }
    }
}

impl RunConfig {
    /// How a run of `program` with `args` begins: a dry run spawns nothing and
    /// prints the exact command line; any other run spawns the command.
    pub fn start(&self, program: &str, args: &Vec<String>) -> (r: RunStart)
        ensures
            self.dry_run <==> r is DryRun,
            r matches RunStart::DryRun { text, outcome } ==> text@ == dry_run_text(
                program@,
                args@,
            ) && outcome.success && outcome.raw_status == Some(0i32),
    {
        if self.dry_run {
            RunStart::DryRun { text: command_text(program, args), outcome: ExitOutcome::dry_run() }
        } else {
            RunStart::Spawn
        }
    }
}

/// Escaping a word that begins with `c` begins with escaping `c`.
proof fn lemma_escaped_cons(c: char, w: Seq<char>)
    ensures
        escaped(seq![c] + w) == escape_char(c) + escaped(w),
    decreases w.len(),
{
    let v = seq![c] + w;
    if w.len() == 0 {
        assert(v.drop_last() =~= Seq::<char>::empty());
        assert(v.last() == c);
        assert(escaped(v.drop_last()) == Seq::<char>::empty());
        assert(w =~= Seq::<char>::empty());
        assert(escaped(v) =~= escape_char(c) + escaped(w));
    } else {
        assert(v.drop_last() =~= seq![c] + w.drop_last());
        assert(v.last() == w.last());
        lemma_escaped_cons(c, w.drop_last());
        assert(escaped(v) =~= escape_char(c) + escaped(w));
    }
}

/// An escaped word ends at the first quote that is not escaped: what stands
/// before it and what follows it are both determined.
proof fn lemma_escaped_unique(a: Seq<char>, b: Seq<char>, x: Seq<char>, y: Seq<char>)
    requires
        escaped(a) + seq!['"'] + x == escaped(b) + seq!['"'] + y,
    ensures
        a == b,
        x == y,
    decreases a.len() + b.len(),
{
    let l = escaped(a) + seq!['"'] + x;
    let r = escaped(b) + seq!['"'] + y;
    if a.len() == 0 && b.len() == 0 {
        assert(x =~= l.subrange(1, l.len() as int));
        assert(y =~= r.subrange(1, r.len() as int));
        assert(a =~= b);
    } else if a.len() == 0 {
        assert(b =~= seq![b[0]] + b.drop_first());
        lemma_escaped_cons(b[0], b.drop_first());
        assert(r[0] == escape_char(b[0])[0]);
        assert(l[0] == '"');
    } else if b.len() == 0 {
        assert(a =~= seq![a[0]] + a.drop_first());
        lemma_escaped_cons(a[0], a.drop_first());
        assert(l[0] == escape_char(a[0])[0]);
        assert(r[0] == '"');
    } else {
        let a0 = a[0];
        let b0 = b[0];
        assert(a =~= seq![a0] + a.drop_first());
        assert(b =~= seq![b0] + b.drop_first());
        lemma_escaped_cons(a0, a.drop_first());
        lemma_escaped_cons(b0, b.drop_first());
        let ea = escape_char(a0);
        let eb = escape_char(b0);
        let ta = escaped(a.drop_first()) + seq!['"'] + x;
        let tb = escaped(b.drop_first()) + seq!['"'] + y;
        assert(l =~= ea + ta);
        assert(r =~= eb + tb);
        assert(l[0] == ea[0]);
        assert(r[0] == eb[0]);
        if ea.len() == 2 && eb.len() == 2 {
            assert(l[1] == ea[1]);
            assert(r[1] == eb[1]);
        }
        assert(a0 == b0);
        assert(ta =~= l.subrange(ea.len() as int, l.len() as int));
        assert(tb =~= r.subrange(eb.len() as int, r.len() as int));
        lemma_escaped_unique(a.drop_first(), b.drop_first(), x, y);
    }
}

/// The text of a command line, read from its first word.
proof fn lemma_argv_text_cons(w: Seq<char>, rest: Seq<Seq<char>>)
    ensures
        argv_text(seq![w] + rest) == quoted(w) + (if rest.len() == 0 {
            Seq::<char>::empty()
        } else {
            seq![' '] + argv_text(rest)
        }),
    decreases rest.len(),
{
    let v = seq![w] + rest;
    if rest.len() == 0 {
        assert(v.len() == 1);
        assert(argv_text(v) =~= quoted(w) + Seq::<char>::empty());
    } else if rest.len() == 1 {
        assert(v.drop_last() =~= seq![w]);
        assert(v.last() == rest[0]);
        assert(argv_text(seq![w]) == quoted(w));
        assert(argv_text(rest) == quoted(rest[0]));
        assert(argv_text(v) =~= quoted(w) + (seq![' '] + argv_text(rest)));
    } else {
        assert(v.drop_last() =~= seq![w] + rest.drop_last());
        lemma_argv_text_cons(w, rest.drop_last());
        assert(argv_text(v) =~= quoted(w) + (seq![' '] + argv_text(rest)));
    }
}

/// A command line's text determines its words.
proof fn lemma_argv_text_unique(a: Seq<Seq<char>>, b: Seq<Seq<char>>)
    requires
        a.len() > 0,
        b.len() > 0,
        argv_text(a) == argv_text(b),
    ensures
        a == b,
    decreases a.len(),
{
    let a1 = a.drop_first();
    let b1 = b.drop_first();
    assert(a =~= seq![a[0]] + a1);
    assert(b =~= seq![b[0]] + b1);
    lemma_argv_text_cons(a[0], a1);
    lemma_argv_text_cons(b[0], b1);
    let ta: Seq<char> = if a1.len() == 0 {
        Seq::empty()
    } else {
        seq![' '] + argv_text(a1)
    };
    let tb: Seq<char> = if b1.len() == 0 {
        Seq::empty()
    } else {
        seq![' '] + argv_text(b1)
    };
    let t = argv_text(a);
    assert(t.subrange(1, t.len() as int) =~= escaped(a[0]) + seq!['"'] + ta);
    assert(argv_text(b).subrange(1, t.len() as int) =~= escaped(b[0]) + seq!['"'] + tb);
    lemma_escaped_unique(a[0], b[0], ta, tb);
    if a1.len() > 0 && b1.len() > 0 {
        assert(argv_text(a1) =~= ta.subrange(1, ta.len() as int));
        assert(argv_text(b1) =~= tb.subrange(1, tb.len() as int));
        lemma_argv_text_unique(a1, b1);
    } else {
        assert(ta.len() == 0 && tb.len() == 0);
    }
}

/// What a dry run prints tells the command exactly: two dry runs print the
/// same text only for the same program and the same arguments.
pub proof fn lemma_dry_run_text_determines_command(
    p1: Seq<char>,
    a1: Seq<String>,
    p2: Seq<char>,
    a2: Seq<String>,
)
    requires
        dry_run_text(p1, a1) == dry_run_text(p2, a2),
    ensures
        p1 == p2,
        views(a1) == views(a2),
{
    let t1 = dry_run_text(p1, a1);
    let n = DRY_RUN_TAG@.len() as int;
    assert(argv_text(argv(p1, a1)) =~= t1.subrange(n, t1.len() as int));
    assert(argv_text(argv(p2, a2)) =~= t1.subrange(n, t1.len() as int));
    lemma_argv_text_unique(argv(p1, a1), argv(p2, a2));
    assert(argv(p1, a1)[0] == p1);
    assert(argv(p2, a2)[0] == p2);
    assert(views(a1) =~= argv(p1, a1).drop_first());
    assert(views(a2) =~= argv(p2, a2).drop_first());
}

/// Each run appends its own block to the log file: the file's earlier content
/// stays in front, unchanged, and the two runs' blocks follow in order.
pub proof fn lemma_runs_append_blocks(
    prior: Seq<char>,
    first: Seq<EntryView>,
    second: Seq<EntryView>,
)
    ensures
        appended(appended(prior, block_of(first)), block_of(second)) == prior + block_of(first)
            + block_of(second),
        appended(appended(prior, block_of(first)), block_of(second)).subrange(
            0,
            prior.len() as int,
        ) == prior,
{
    let f = appended(appended(prior, block_of(first)), block_of(second));
    assert(f =~= prior + block_of(first) + block_of(second));
    assert(f.subrange(0, prior.len() as int) =~= prior);
}

} // verus!
