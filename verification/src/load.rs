//! The line that shows the load averages.

use vstd::prelude::*;
use vstd::string::StringExecFns;

verus! {

/// The count with which the platform says that its query failed.
pub const LOAD_UNAVAILABLE: i32 = -1;

/// Each of `samples` followed by a comma and a space.
pub open spec fn separated(samples: Seq<Seq<char>>) -> Seq<char>
    decreases samples.len(),
{
    if samples.len() == 0 {
        Seq::empty()
    } else {
        separated(samples.drop_last()) + samples.last() + ", "@
    }
}

/// `samples` with a comma and a space between them and a line end after the
/// last; nothing at all where there is no sample.
pub open spec fn listed(samples: Seq<Seq<char>>) -> Seq<char> {
    if samples.len() == 0 {
        Seq::empty()
    } else {
        separated(samples.drop_last()) + samples.last() + "\n"@
    }
}

/// The load line for a reported count of `loads` and the samples as they are
/// to be shown. Where no sample was obtained, because the query failed or the
/// platform has no load averages, the line is a bare line end, so that the
/// report keeps its count of lines. Else it is the caption and the first
/// `loads` samples.
pub open spec fn load_text(loads: int, samples: Seq<Seq<char>>) -> Seq<char> {
    if loads <= 0 {
        "\n"@
    } else {
        "load average: "@ + listed(samples.take(loads))
    }
}

/// Three samples make the caption, the samples with a comma and a space
/// between them, and a line end.
pub proof fn lemma_three_samples(one: Seq<char>, five: Seq<char>, fifteen: Seq<char>)
    ensures
        load_text(3, seq![one, five, fifteen]) == "load average: "@ + one + ", "@ + five + ", "@
            + fifteen + "\n"@,
{
    let samples = seq![one, five, fifteen];
    assert(samples.take(3) =~= samples);
    let two = samples.drop_last();
    let first = two.drop_last();
    assert(first.drop_last().len() == 0);
    assert(separated(first.drop_last()) =~= Seq::<char>::empty());
    assert(separated(first) =~= one + ", "@);
    assert(separated(two) =~= one + ", "@ + five + ", "@);
    assert(listed(samples) =~= one + ", "@ + five + ", "@ + fifteen + "\n"@);
    assert("load average: "@ + (one + ", "@ + five + ", "@ + fifteen + "\n"@) =~= "load average: "@
        + one + ", "@ + five + ", "@ + fifteen + "\n"@);
}

/// Without a sample the line is a bare line end, whatever the count says of
/// the reason and whatever the samples hold.
pub proof fn lemma_no_sample_is_bare(loads: int, samples: Seq<Seq<char>>)
    requires
        loads <= 0,
    ensures
        load_text(loads, samples) == "\n"@,
{
}

/// The load line always ends the line it stands on.
pub proof fn lemma_load_line_ends(loads: int, samples: Seq<Seq<char>>)
    requires
        loads <= samples.len(),
    ensures
        load_text(loads, samples).len() > 0,
        load_text(loads, samples).last() == '\n',
{
    reveal_strlit("\n");
    if loads > 0 {
        let shown = samples.take(loads);
        let tail = separated(shown.drop_last()) + shown.last();
        assert(listed(shown) == tail + "\n"@);
        assert(("load average: "@ + (tail + "\n"@)).last() == '\n');
    }
}

/// The load line. `loads` is what the platform's query returned: the number
/// of samples it obtained, or `LOAD_UNAVAILABLE`. `samples` holds the samples
/// in the order of their windows (one, five and fifteen minutes), each as the
/// text to show.
pub fn print_loadavg(loads: i32, samples: &Vec<String>) -> (line: String)
    requires
        loads <= samples.len(),
    ensures
        line@ == load_text(loads as int, samples.deep_view()),
{
    let mut line: String = String::new();
    if loads <= 0 {
        line.append("\n");
        assert(line@ =~= "\n"@);
        return line;
    }
    line.append("load average: ");
    let count: usize = loads as usize;
    let ghost shown = samples.deep_view().take(count as int);
    let mut n: usize = 0;
    while n < count
        invariant
            0 < count <= samples.len(),
            n <= count,
            shown == samples.deep_view().take(count as int),
            n < count ==> line@ == "load average: "@ + separated(shown.take(n as int)),
            n == count ==> line@ == "load average: "@ + listed(shown),
        decreases count - n,
    {
        proof {
            assert(shown.take(n + 1).drop_last() =~= shown.take(n as int));
            assert(shown.take(n + 1).last() == samples[n as int]@);
            if n + 1 == count {
                assert(shown.drop_last() =~= shown.take(n as int));
            }
        }
        line.append(samples[n].as_str());
        if n == count - 1 {
            line.append("\n");
        } else {
            line.append(", ");
        }
        n = n + 1;
        proof {
            if n == count {
                assert(line@ =~= "load average: "@ + listed(shown));
            } else {
                assert(line@ =~= "load average: "@ + separated(shown.take(n as int)));
            }
        }
    }
    line
}

} // verus!
