use vstd::prelude::*;

verus! {

/// Column titles of an exported curve: time, raw level, normalized level.
pub const HEADER_TIME: &'static str = "Time (s)";

pub const HEADER_RAW: &'static str = "Loudness (dBFS)";

pub const HEADER_NORMALIZED: &'static str = "Normalized Loudness (dBFS)";

/// `s` with every non-overlapping occurrence of the non-empty `from`,
/// searched from the left, replaced by `to`.
pub open spec fn replaced(s: Seq<char>, from: Seq<char>, to: Seq<char>) -> Seq<char>
    decreases s.len(),
{
    if from.len() == 0 || s.len() < from.len() {
        s
    } else if s.subrange(0, from.len() as int) == from {
        to + replaced(s.skip(from.len() as int), from, to)
    } else {
        seq![s[0]] + replaced(s.skip(1), from, to)
    }
}

/// Relies on `str::replace`: every non-overlapping match of the pattern,
/// from the left, replaced.
#[verifier::external_body]
fn replace_all(s: &str, from: &str, to: &str) -> (r: String)
    requires
        from@.len() > 0,
    ensures
        r@ == replaced(s@, from@, to@),
{
    s.replace(from, to)
}

/// Suggested name of the exported table: the curve's name with `.wav` and
/// then `.csv` removed wherever they occur, followed by `.csv`.
pub fn export_file_name(name: &str) -> (r: String)
    ensures
        r@ == replaced(replaced(name@, ".wav"@, ""@), ".csv"@, ""@) + ".csv"@,
{
    proof {
        reveal_strlit(".wav");
        reveal_strlit(".csv");
    }
    let without_wav = replace_all(name, ".wav", "");
    let stem = replace_all(without_wav.as_str(), ".csv", "");
    stem.concat(".csv")
}

} // verus!
