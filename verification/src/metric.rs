//! The identity of a measurement, and the file name that carries it.

use crate::errors::{RunnerError, RunnerErrorView};
use crate::text::{chars_of, join3};
use vstd::prelude::*;
use vstd::string::*;

verus! {

/// What is measured: a named behaviour of the tool, on one project.
#[derive(Debug, Clone, PartialEq, Eq, Hash)]
pub struct Metric {
    pub name: String,
    pub project_name: String,
}

/// The mathematical view of [`Metric`]: every text as its sequence of characters.
pub struct MetricView {
    pub name: Seq<char>,
    pub project_name: Seq<char>,
}

impl View for Metric {
    type V = MetricView;

    open spec fn view(&self) -> MetricView {
        MetricView { name: self.name@, project_name: self.project_name@ }
    }
}

impl DeepView for Metric {
    type V = MetricView;

    open spec fn deep_view(&self) -> MetricView {
        self.view()
    }
}

/// The separator between a metric's name and its project in a file name.
pub open spec fn separator() -> Seq<char> {
    seq!['_', '_', '_']
}

/// The extension of a report or baseline file, with its dot.
pub open spec fn json_suffix() -> Seq<char> {
    seq!['.', 'j', 's', 'o', 'n']
}

/// A separator stands in `s` at index `i`.
pub open spec fn separator_at(s: Seq<char>, i: int) -> bool {
    0 <= i && i + 3 <= s.len() && s[i] == '_' && s[i + 1] == '_' && s[i + 2] == '_'
}

/// A separator stands somewhere in `s`.
pub open spec fn has_separator(s: Seq<char>) -> bool {
    exists|i: int| separator_at(s, i)
}

/// `s` has its first separator at `i`, and none in what follows it. Cutting
/// `s` at every separator, from the left, then gives two pieces.
pub open spec fn splits_at(s: Seq<char>, i: int) -> bool {
    &&& separator_at(s, i)
    &&& forall|j: int| 0 <= j < i ==> !separator_at(s, j)
    &&& !has_separator(s.skip(i + 3))
}

/// The canonical file name of a metric: `<name>___<project_name>`.
pub open spec fn canonical_filename(m: MetricView) -> Seq<char> {
    m.name + separator() + m.project_name
}

/// The metric that a file stem names: the stem is cut at its separators,
/// leftmost first, and names a metric when that gives exactly two pieces.
pub open spec fn parse_filename(s: Seq<char>) -> Option<MetricView> {
    if exists|i: int| splits_at(s, i) {
        let i = choose|i: int| splits_at(s, i);
        Some(MetricView { name: s.take(i), project_name: s.skip(i + 3) })
    } else {
        None
    }
}

/// A string can be split at one index at most.
pub proof fn lemma_split_unique(s: Seq<char>, i: int, j: int)
    requires
        splits_at(s, i),
        splits_at(s, j),
    ensures
        i == j,
{
}

proof fn lemma_separator_after(s: Seq<char>, k: int)
    requires
        0 <= k <= s.len(),
    ensures
        has_separator(s.skip(k)) <==> exists|j: int| k <= j && separator_at(s, j),
{
    let t = s.skip(k);
    if has_separator(t) {
        let i = choose|i: int| separator_at(t, i);
        assert(separator_at(s, i + k));
    }
    if exists|j: int| k <= j && separator_at(s, j) {
        let j = choose|j: int| k <= j && separator_at(s, j);
        assert(separator_at(t, j - k));
    }
}

/// Parsing undoes naming: a metric whose name and project hold no
/// separator, and whose name does not end in an underscore, is what its
/// canonical file name is parsed to.
pub proof fn lemma_parse_filename_round_trip(m: MetricView)
    requires
        !has_separator(m.name),
        !has_separator(m.project_name),
        m.name.len() == 0 || m.name.last() != '_',
    ensures
        parse_filename(canonical_filename(m)) == Some(m),
{
    let s = canonical_filename(m);
    let i = m.name.len() as int;
    assert(separator_at(s, i));
    assert forall|j: int| 0 <= j < i implies !separator_at(s, j) by {
        if separator_at(s, j) {
            if j + 3 <= i {
                assert(separator_at(m.name, j));
            } else {
                assert(s[i - 1] == '_');
                assert(m.name.last() == s[i - 1]);
            }
        }
    }
    assert(s.skip(i + 3) =~= m.project_name);
    assert(s.take(i) =~= m.name);
    assert(splits_at(s, i));
    let k = choose|k: int| splits_at(s, k);
    lemma_split_unique(s, i, k);
}

/// A name that ends in an underscore is not recovered from the canonical
/// file name: the underscore is read as part of the separator.
pub proof fn lemma_trailing_underscore_not_recovered(m: MetricView)
    requires
        m.name.len() > 0,
        m.name.last() == '_',
    ensures
        parse_filename(canonical_filename(m)) != Some(m),
{
    let s = canonical_filename(m);
    let i = m.name.len() as int;
    assert(s[i - 1] == m.name.last());
    assert(separator_at(s, i - 1));
    if parse_filename(s) is Some {
        let k = choose|k: int| splits_at(s, k);
        assert(k <= i - 1);
        assert(s.take(k).len() == k);
    }
}

/// What a stem is parsed to has that stem as its canonical file name.
pub proof fn lemma_parsed_filename_is_canonical(s: Seq<char>)
    requires
        parse_filename(s) is Some,
    ensures
        canonical_filename(parse_filename(s)->Some_0) == s,
{
    let i = choose|i: int| splits_at(s, i);
    assert(s.take(i) + separator() + s.skip(i + 3) =~= s);
}

/// The first separator of `chars` at or after `from`, if there is one.
fn find_separator(chars: &Vec<char>, from: usize) -> (r: Option<usize>)
    requires
        from <= chars.len(),
    ensures
        match r {
            Some(i) => from <= i && i + 3 <= chars.len() && separator_at(chars@, i as int)
                && forall|j: int| from <= j < i ==> !separator_at(chars@, j),
            None => forall|j: int| from <= j ==> !separator_at(chars@, j),
        },
{
    let n = chars.len();
    let mut i: usize = from;
    while i < n && n - i >= 3
        invariant
            n == chars.len(),
            from <= i <= n,
            forall|j: int| from <= j < i ==> !separator_at(chars@, j),
        decreases n - i,
    {
        if chars[i] == '_' && chars[i + 1] == '_' && chars[i + 2] == '_' {
            return Some(i);
        }
        i += 1;
    }
    None
}

impl Metric {
    /// The text that separates name and project in a file name.
    pub fn sep() -> (r: &'static str)
        ensures
            r@ == separator(),
    {
        proof {
            reveal_strlit("___");
        }
        let r = "___";
        assert(r@ =~= separator());
        r
    }

    /// The canonical file name, `<name>___<project_name>`: the stem of the
    /// files that hold this metric's measurements.
    pub fn filename(&self) -> (r: String)
        ensures
            r@ == canonical_filename(self@),
    {
        join3(self.name.as_str(), Metric::sep(), self.project_name.as_str())
    }

    /// The name of the file that holds this metric's measurements: the
    /// canonical file name with the extension `.json`.
    pub fn json_filename(&self) -> (r: String)
        ensures
            r@ == canonical_filename(self@) + json_suffix(),
    {
        proof {
            reveal_strlit(".json");
        }
        let mut r = self.filename();
        r.append(".json");
        assert(".json"@ =~= json_suffix());
        r
    }

    /// Reads a metric back from a file stem. The stem is cut at each
    /// separator, leftmost first; it names a metric when that gives exactly
    /// two pieces, the name and the project.
    pub fn from_str(s: &str) -> (r: Result<Metric, RunnerError>)
        ensures
            match parse_filename(s@) {
                Some(m) => r is Ok && r->Ok_0@ == m,
                None => r is Err && r->Err_0@ == RunnerErrorView::MetricFilenameParseErr(s@),
            },
    {
        let chars = chars_of(s);
        match find_separator(&chars, 0) {
            Some(i) => {
                match find_separator(&chars, i + 3) {
                    None => {
                        proof {
                            lemma_separator_after(s@, i + 3);
                            assert(splits_at(s@, i as int));
                            let k = choose|k: int| splits_at(s@, k);
                            lemma_split_unique(s@, i as int, k);
                        }
                        let name = String::from_str(s.substring_char(0, i));
                        let project_name = String::from_str(s.substring_char(i + 3, chars.len()));
                        assert(name@ =~= s@.take(i as int));
                        assert(project_name@ =~= s@.skip(i + 3));
                        Ok(Metric { name, project_name })
                    },
                    Some(j) => {
                        proof {
                            lemma_separator_after(s@, i + 3);
                            assert forall|k: int| !splits_at(s@, k) by {
                                if splits_at(s@, k) {
                                    assert(k == i);
                                }
                            }
                        }
                        Err(RunnerError::MetricFilenameParseErr(String::from_str(s)))
                    },
                }
            },
            None => {
                Err(RunnerError::MetricFilenameParseErr(String::from_str(s)))
            },
        }
    }
}

impl std::str::FromStr for Metric {
    type Err = RunnerError;

    /// Reads a metric back from a file stem, as the method of the same name
    /// on `Metric` does: the stem is cut at each separator, leftmost first,
    /// and names a metric when that gives exactly two pieces.
    fn from_str(s: &str) -> (r: Result<Metric, RunnerError>)
        ensures
            match parse_filename(s@) {
                Some(m) => r is Ok && r->Ok_0@ == m,
                None => r is Err && r->Err_0@ == RunnerErrorView::MetricFilenameParseErr(s@),
            },
    {
        Metric::from_str(s)
    }
}

} // verus!
