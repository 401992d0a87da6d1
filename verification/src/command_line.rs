//! Command lines of Windows programs, in UTF-16 units.
use vstd::prelude::*;

verus! {

pub const SPACE: u16 = 0x20;

pub const TAB: u16 = 9;

pub const QUOTE: u16 = 0x22;

pub const BACKSLASH: u16 = 0x5c;

/// Whether an argument has to stand in quotes.
pub open spec fn needs_quotes(argument: Seq<u16>) -> bool {
    argument.len() == 0 || argument.contains(SPACE) || argument.contains(TAB)
        || argument.contains(QUOTE)
}

/// A number of backslashes.
pub open spec fn backslashes(count: nat) -> Seq<u16> {
    Seq::new(count, |i: int| BACKSLASH)
}

/// What stands between the quotes, and the closing quote, for what is left of an
/// argument behind a number of backslashes: backslashes are doubled before a quote,
/// and a quote of the argument gets one more.
pub open spec fn escaped(rest: Seq<u16>, held: nat) -> Seq<u16>
    decreases rest.len(),
{
    if rest.len() == 0 {
        backslashes(2 * held) + seq![QUOTE]
    } else if rest[0] == BACKSLASH {
        escaped(rest.skip(1), held + 1)
    } else if rest[0] == QUOTE {
        backslashes(2 * held + 1) + seq![QUOTE] + escaped(rest.skip(1), 0)
    } else {
        backslashes(held) + seq![rest[0]] + escaped(rest.skip(1), 0)
    }
}

/// How an argument is written.
pub open spec fn quoted(argument: Seq<u16>) -> Seq<u16> {
    if needs_quotes(argument) {
        seq![QUOTE] + escaped(argument, 0)
    } else {
        argument
    }
}

/// Arguments, each behind a space.
pub open spec fn quoted_list(arguments: Seq<Vec<u16>>) -> Seq<u16>
    decreases arguments.len(),
{
    if arguments.len() == 0 {
        Seq::empty()
    } else {
        quoted_list(arguments.drop_last()) + seq![SPACE] + quoted(arguments.last()@)
    }
}

fn push_backslashes(out: &mut Vec<u16>, count: usize)
    ensures
        final(out)@ == old(out)@ + backslashes(count as nat),
{
    let mut i: usize = 0;
    let ghost start = out@;
    assert(start + backslashes(0) =~= start);
    while i < count
        invariant
            i <= count,
            out@ == start + backslashes(i as nat),
        decreases count - i,
    {
        out.push(BACKSLASH);
        i += 1;
        assert(out@ =~= start + backslashes(i as nat));
    }
}

fn has_unit(units: &Vec<u16>, unit: u16) -> (r: bool)
    ensures
        r == units@.contains(unit),
{
    let mut i: usize = 0;
    while i < units.len()
        invariant
            i <= units@.len(),
            forall|k: int| 0 <= k < i ==> units@[k] != unit,
        decreases units.len() - i,
    {
        if units[i] == unit {
            return true;
        }
        i += 1;
    }
    false
}

/// Appends an argument.
pub fn append_quoted_argument(command_line: &mut Vec<u16>, argument: &Vec<u16>)
    ensures
        final(command_line)@ == old(command_line)@ + quoted(argument@),
{
    let ghost start = command_line@;
    let total: usize = argument.len();
    if !(total == 0 || has_unit(argument, SPACE) || has_unit(argument, TAB) || has_unit(
        argument,
        QUOTE,
    )) {
        let mut i: usize = 0;
        assert(start + argument@.take(0) =~= start);
        while i < total
            invariant
                i <= total,
                total == argument@.len(),
                command_line@ == start + argument@.take(i as int),
            decreases total - i,
        {
            command_line.push(argument[i]);
            i += 1;
            assert(command_line@ =~= start + argument@.take(i as int));
        }
        assert(argument@.take(total as int) =~= argument@);
        return;
    }
    command_line.push(QUOTE);
    let mut held: usize = 0;
    let mut i: usize = 0;
    assert(argument@.skip(0) =~= argument@);
    assert(command_line@ + escaped(argument@, 0) =~= start + quoted(argument@));
    while i < total
        invariant
            i <= total,
            total == argument@.len(),
            held <= i,
            command_line@ + escaped(argument@.skip(i as int), held as nat) == start + quoted(
                argument@,
            ),
        decreases total - i,
    {
        let unit: u16 = argument[i];
        let ghost rest = argument@.skip(i as int);
        let ghost before = command_line@;
        assert(rest[0] == unit);
        assert(rest.skip(1) =~= argument@.skip(i + 1));
        if unit == BACKSLASH {
            held += 1;
        } else {
            if unit == QUOTE {
                push_backslashes(command_line, held);
                push_backslashes(command_line, held);
                push_backslashes(command_line, 1);
                assert(command_line@ =~= before + backslashes((2 * held + 1) as nat));
            } else {
                push_backslashes(command_line, held);
            }
            command_line.push(unit);
            assert(before + escaped(rest, held as nat) =~= command_line@ + escaped(
                rest.skip(1),
                0,
            ));
            held = 0;
        }
        i += 1;
    }
    let ghost before = command_line@;
    push_backslashes(command_line, held);
    push_backslashes(command_line, held);
    assert(command_line@ =~= before + backslashes((2 * held) as nat));
    command_line.push(QUOTE);
    assert(before + escaped(argument@.skip(total as int), held as nat) =~= command_line@);
}

/// The command line of a program and its arguments, with the zero at its end.
pub fn build_windows_command_line(application: &Vec<u16>, arguments: &Vec<Vec<u16>>) -> (r: Vec<
    u16,
>)
    ensures
        r@ == quoted(application@) + quoted_list(arguments@) + seq![0u16],
{
    let mut out: Vec<u16> = Vec::new();
    append_quoted_argument(&mut out, application);
    let mut i: usize = 0;
    assert(arguments@.take(0) =~= Seq::<Vec<u16>>::empty());
    assert(out@ =~= quoted(application@) + quoted_list(arguments@.take(0)));
    while i < arguments.len()
        invariant
            i <= arguments@.len(),
            out@ == quoted(application@) + quoted_list(arguments@.take(i as int)),
        decreases arguments.len() - i,
    {
        assert(arguments@.take(i + 1).drop_last() =~= arguments@.take(i as int));
        out.push(SPACE);
        append_quoted_argument(&mut out, &arguments[i]);
        i += 1;
        assert(out@ =~= quoted(application@) + quoted_list(arguments@.take(i as int)));
    }
    assert(arguments@.take(arguments@.len() as int) =~= arguments@);
    out.push(0);
    assert(out@ =~= quoted(application@) + quoted_list(arguments@) + seq![0u16]);
    out
}

// ---------------------------------------------------------------------------
// Reading back
// ---------------------------------------------------------------------------

/// The argument that a program reads from the start of what is left of its command
/// line: a space or tab outside quotes ends it, a quote behind an even number of
/// backslashes opens or closes quotes, one behind an odd number stands for itself,
/// and backslashes before a quote count half.
pub open spec fn first_argument(rest: Seq<u16>, in_quotes: bool, held: nat) -> Seq<u16>
    decreases rest.len(),
{
    if rest.len() == 0 {
        backslashes(held)
    } else if rest[0] == BACKSLASH {
        first_argument(rest.skip(1), in_quotes, held + 1)
    } else if rest[0] == QUOTE {
        if held % 2 == 0 {
            backslashes(held / 2) + first_argument(rest.skip(1), !in_quotes, 0)
        } else {
            backslashes(held / 2) + seq![QUOTE] + first_argument(rest.skip(1), in_quotes, 0)
        }
    } else if !in_quotes && (rest[0] == SPACE || rest[0] == TAB) {
        backslashes(held)
    } else {
        backslashes(held) + seq![rest[0]] + first_argument(rest.skip(1), in_quotes, 0)
    }
}

proof fn lemma_backslashes_are_held(count: nat, rest: Seq<u16>, in_quotes: bool, held: nat)
    ensures
        first_argument(backslashes(count) + rest, in_quotes, held) == first_argument(
            rest,
            in_quotes,
            held + count,
        ),
    decreases count,
{
    if count == 0 {
        assert(backslashes(0) + rest =~= rest);
    } else {
        let all = backslashes(count) + rest;
        assert(all.skip(1) =~= backslashes((count - 1) as nat) + rest);
        lemma_backslashes_are_held((count - 1) as nat, rest, in_quotes, held + 1);
    }
}

/// Whether an argument ends here: at the end of the line or at a space.
pub open spec fn ends_argument(rest: Seq<u16>) -> bool {
    rest.len() == 0 || rest[0] == SPACE
}

proof fn lemma_escaped_reads_back(argument: Seq<u16>, held: nat, rest: Seq<u16>)
    requires
        ends_argument(rest),
    ensures
        first_argument(escaped(argument, held) + rest, true, 0) == backslashes(held) + argument,
    decreases argument.len(),
{
    let line = escaped(argument, held) + rest;
    if argument.len() == 0 {
        let tail = seq![QUOTE] + rest;
        assert(line =~= backslashes(2 * held) + tail);
        lemma_backslashes_are_held(2 * held, tail, true, 0);
        assert(tail.skip(1) =~= rest);
        assert((2 * held) / 2 == held && (2 * held) % 2 == 0);
        assert(first_argument(rest, false, 0) =~= Seq::<u16>::empty());
        assert(backslashes(held) + Seq::<u16>::empty() =~= backslashes(held) + argument);
    } else if argument[0] == BACKSLASH {
        lemma_escaped_reads_back(argument.skip(1), held + 1, rest);
        assert(backslashes(held + 1) + argument.skip(1) =~= backslashes(held) + argument);
    } else if argument[0] == QUOTE {
        let tail = seq![QUOTE] + (escaped(argument.skip(1), 0) + rest);
        assert(line =~= backslashes(2 * held + 1) + tail);
        lemma_backslashes_are_held(2 * held + 1, tail, true, 0);
        assert(tail.skip(1) =~= escaped(argument.skip(1), 0) + rest);
        assert((2 * held + 1) / 2 == held && (2 * held + 1) % 2 == 1);
        lemma_escaped_reads_back(argument.skip(1), 0, rest);
        assert(backslashes(0) + argument.skip(1) =~= argument.skip(1));
        assert(backslashes(held) + seq![QUOTE] + argument.skip(1) =~= backslashes(held)
            + argument);
    } else {
        let tail = seq![argument[0]] + (escaped(argument.skip(1), 0) + rest);
        assert(line =~= backslashes(held) + tail);
        lemma_backslashes_are_held(held, tail, true, 0);
        assert(tail.skip(1) =~= escaped(argument.skip(1), 0) + rest);
        lemma_escaped_reads_back(argument.skip(1), 0, rest);
        assert(backslashes(0) + argument.skip(1) =~= argument.skip(1));
        assert(backslashes(held) + seq![argument[0]] + argument.skip(1) =~= backslashes(held)
            + argument);
    }
}

proof fn lemma_plain_reads_back(argument: Seq<u16>, held: nat, rest: Seq<u16>)
    requires
        ends_argument(rest),
        !argument.contains(SPACE),
        !argument.contains(TAB),
        !argument.contains(QUOTE),
    ensures
        first_argument(argument + rest, false, held) == backslashes(held) + argument,
    decreases argument.len(),
{
    let line = argument + rest;
    if argument.len() == 0 {
        assert(line =~= rest);
        assert(backslashes(held) + argument =~= backslashes(held));
    } else {
        let tail = argument.skip(1);
        assert(argument.contains(argument[0]));
        assert forall|unit: u16| #[trigger] tail.contains(unit) implies argument.contains(unit) by {
            let i = choose|i: int| 0 <= i < tail.len() && tail[i] == unit;
            assert(argument[i + 1] == unit);
        }
        assert(line.skip(1) =~= tail + rest);
        if argument[0] == BACKSLASH {
            lemma_plain_reads_back(tail, held + 1, rest);
            assert(backslashes(held + 1) + tail =~= backslashes(held) + argument);
        } else {
            lemma_plain_reads_back(tail, 0, rest);
            assert(backslashes(0) + tail =~= tail);
            assert(backslashes(held) + seq![argument[0]] + tail =~= backslashes(held) + argument);
        }
    }
}

/// A program reads every argument back as it was given.
pub proof fn arguments_read_back(argument: Seq<u16>, rest: Seq<u16>)
    requires
        ends_argument(rest),
    ensures
        first_argument(quoted(argument) + rest, false, 0) == argument,
{
    assert(backslashes(0) + argument =~= argument);
    if needs_quotes(argument) {
        let line = quoted(argument) + rest;
        assert(line.skip(1) =~= escaped(argument, 0) + rest);
        lemma_escaped_reads_back(argument, 0, rest);
        assert(backslashes(0) + argument =~= argument);
        assert(line[0] == QUOTE);
    } else {
        lemma_plain_reads_back(argument, 0, rest);
    }
}

} // verus!
