use vstd::prelude::*;
use vstd::string::*;
use crate::decision::string_views;
use crate::intent::StyleIntent;

verus! {

/// What `str::trim` returns for `s`: `s` without leading and trailing whitespace.
pub uninterp spec fn trimmed(s: Seq<char>) -> Seq<char>;

/// Relies on `str::trim`: the result depends on the text alone, is no longer
/// than it, and is empty for empty text.
#[verifier::external_body]
fn trim(s: &str) -> (r: &str)
    ensures
        r@ == trimmed(s@),
        r@.len() <= s@.len(),
        s@.len() == 0 ==> r@.len() == 0,
{
    s.trim()
}

/// References that show off style features, tried first for live examples.
pub open spec fn candidate_ids() -> Seq<Seq<char>> {
    seq!["vaswani_attention"@, "foucault_discipline"@, "brown_v_board"@]
}

pub open spec fn when_present(available: Seq<Seq<char>>, id: Seq<char>) -> Seq<Seq<char>> {
    if available.contains(id) {
        seq![id]
    } else {
        Seq::empty()
    }
}

/// The references to cite in a live example: the candidates that are
/// available, in their fixed order; failing those, the first three available.
pub open spec fn sample_ids_of(available: Seq<Seq<char>>) -> Seq<Seq<char>> {
    let c = candidate_ids();
    let found = when_present(available, c[0]) + when_present(available, c[1]) + when_present(
        available,
        c[2],
    );
    if found.len() > 0 {
        found
    } else if available.len() <= 3 {
        available
    } else {
        available.take(3)
    }
}

fn contains_id(available: &Vec<String>, id: &str) -> (r: bool)
    ensures
        r == string_views(available@).contains(id@),
{
    let target = String::from_str(id);
    let mut k: usize = 0;
    while k < available.len()
        invariant
            k <= available@.len(),
            target@ == id@,
            forall|j: int| 0 <= j < k ==> available@[j]@ != id@,
        decreases available@.len() - k,
    {
        if available[k] == target {
            assert(string_views(available@)[k as int] == id@);
            return true;
        }
        k = k + 1;
    }
    proof {
        if string_views(available@).contains(id@) {
            let j = choose|j: int|
                0 <= j < string_views(available@).len() && string_views(available@)[j] == id@;
            assert(available@[j]@ == id@);
        }
    }
    false
}

fn push_if_present(out: &mut Vec<String>, available: &Vec<String>, id: &str)
    ensures
        string_views(final(out)@) == string_views(old(out)@) + when_present(
            string_views(available@),
            id@,
        ),
{
    if contains_id(available, id) {
        out.push(String::from_str(id));
    }
    assert(string_views(out@) =~= string_views(old(out)@) + when_present(
        string_views(available@),
        id@,
    ));
}

/// Chooses the references for a live example out of the available ones,
/// in the order given.
pub fn select_sample_ids(available: &Vec<String>) -> (r: Vec<String>)
    ensures
        string_views(r@) == sample_ids_of(string_views(available@)),
{
    let mut found: Vec<String> = Vec::new();
    push_if_present(&mut found, available, "vaswani_attention");
    push_if_present(&mut found, available, "foucault_discipline");
    push_if_present(&mut found, available, "brown_v_board");
    let ghost avail = string_views(available@);
    assert(string_views(found@) =~= when_present(avail, candidate_ids()[0]) + when_present(
        avail,
        candidate_ids()[1],
    ) + when_present(avail, candidate_ids()[2]));
    if found.len() > 0 {
        return found;
    }
    let mut first: Vec<String> = Vec::new();
    let mut k: usize = 0;
    while k < available.len() && k < 3
        invariant
            k <= available@.len(),
            k <= 3,
            string_views(first@) == avail.take(k as int),
            avail == string_views(available@),
        decreases available@.len() - k,
    {
        let ghost prev = string_views(first@);
        let item = available[k].clone();
        assert(item@ == avail[k as int]);
        first.push(item);
        assert(string_views(first@) =~= prev.push(avail[k as int]));
        assert(avail.take(k as int + 1) =~= avail.take(k as int).push(avail[k as int]));
        k = k + 1;
    }
    assert(avail.len() <= 3 ==> avail.take(k as int) =~= avail);
    first
}

pub open spec fn entry_html(entry: Seq<char>) -> Seq<char> {
    "<div class='bib-entry'>"@ + entry + "</div>"@
}

pub open spec fn entries_html(entries: Seq<Seq<char>>) -> Seq<char>
    decreases entries.len(),
{
    if entries.len() == 0 {
        Seq::empty()
    } else {
        entries_html(entries.drop_last()) + entry_html(entries.last())
    }
}

/// The live-example fragment: the citation, then, when there are entries,
/// a bibliography block with one element per entry.
pub open spec fn preview_html(citation: Seq<char>, entries: Seq<Seq<char>>) -> Seq<char> {
    let bibliography = if entries.len() > 0 {
        "<div class='preview-bibliography'><h4>Example Bibliography</h4>"@ + entries_html(entries)
            + "</div>"@
    } else {
        Seq::empty()
    };
    "<div class='live-preview-content'><div class='preview-citation'>"@ + citation + "</div>"@
        + bibliography + "</div>"@
}

/// Builds the live-example fragment out of rendered text.
pub fn compose_preview_html(citation: &str, entries: &Vec<String>) -> (r: String)
    ensures
        r@ == preview_html(citation@, string_views(entries@)),
{
    let mut out = String::from_str("<div class='live-preview-content'><div class='preview-citation'>");
    out.append(citation);
    out.append("</div>");
    if entries.len() > 0 {
        out.append("<div class='preview-bibliography'><h4>Example Bibliography</h4>");
        let ghost open = out@;
        let mut k: usize = 0;
        while k < entries.len()
            invariant
                k <= entries@.len(),
                out@ == open + entries_html(string_views(entries@).take(k as int)),
            decreases entries@.len() - k,
        {
            out.append("<div class='bib-entry'>");
            out.append(entries[k].as_str());
            out.append("</div>");
            proof {
                let done = string_views(entries@).take(k as int + 1);
                assert(done.drop_last() =~= string_views(entries@).take(k as int));
                assert(done.last() == entries@[k as int]@);
            }
            k = k + 1;
        }
        assert(string_views(entries@).take(k as int) =~= string_views(entries@));
        out.append("</div>");
    }
    out.append("</div>");
    assert(out@ =~= preview_html(citation@, string_views(entries@)));
    out
}

impl StyleIntent {
    /// The live-example fragment for rendered citation text and bibliography
    /// entries, or `None` when the citation is blank. Entries count only when
    /// the intent asks for a bibliography.
    pub fn live_preview(&self, citation: &str, entries: &Vec<String>) -> (r: Option<String>)
        ensures
            r is None <==> trimmed(citation@).len() == 0,
            r matches Some(h) ==> h@ == preview_html(
                citation@,
                if self.has_bibliography == Some(true) {
                    string_views(entries@)
                } else {
                    Seq::empty()
                },
            ),
    {
        if trim(citation).is_empty() {
            return None;
        }
        if self.has_bibliography == Some(true) {
            Some(compose_preview_html(citation, entries))
        } else {
            let none: Vec<String> = Vec::new();
            assert(string_views(none@) =~= Seq::<Seq<char>>::empty());
            Some(compose_preview_html(citation, &none))
        }
    }
}

} // verus!
