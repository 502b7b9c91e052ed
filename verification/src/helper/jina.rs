//! Page summaries through the r.jina.ai reader: which URL to fetch and which
//! CSS selectors to keep or drop.
use vstd::prelude::*;
use vstd::string::*;

verus! {

/// `parts` joined, with `sep` between each two neighbours.
pub open spec fn join(parts: Seq<Seq<char>>, sep: Seq<char>) -> Seq<char>
    decreases parts.len(),
{
    if parts.len() == 0 {
        Seq::empty()
    } else if parts.len() == 1 {
        parts[0]
    } else {
        join(parts.drop_last(), sep) + sep + parts.last()
    }
}

/// Every part is joined: no parts join to nothing, one part joins to
/// itself, and two non-empty lists of parts joined give the join of the
/// first, `sep`, and the join of the second.
pub proof fn law_join_keeps_every_part(a: Seq<Seq<char>>, b: Seq<Seq<char>>, p: Seq<char>, sep: Seq<char>)
    ensures
        join(Seq::empty(), sep) == Seq::<char>::empty(),
        join(seq![p], sep) == p,
        a.len() > 0 && b.len() > 0 ==> join(a + b, sep) == join(a, sep) + sep + join(b, sep),
    decreases b.len(),
{
    if a.len() > 0 && b.len() > 0 {
        let ab = a + b;
        assert(ab.drop_last() =~= a + b.drop_last());
        assert(ab.last() == b.last());
        if b.len() == 1 {
            assert(a + b.drop_last() =~= a);
            assert(join(b, sep) == b[0]);
        } else {
            law_join_keeps_every_part(a, b.drop_last(), p, sep);
            assert(join(ab, sep) =~= join(a, sep) + sep + join(b, sep));
        }
    }
}

/// The views of a list of string slices.
pub open spec fn views(parts: Seq<&str>) -> Seq<Seq<char>> {
    parts.map_values(|p: &str| p@)
}

/// The reader endpoint, to which the page's own URL is appended.
pub open spec fn reader_prefix() -> Seq<char> {
    "https://r.jina.ai/"@
}

/// `parts` joined with `", "`, as selector lists are written.
pub fn join_selectors(parts: &Vec<&str>) -> (res: String)
    ensures
        res@ == join(views(parts@), ", "@),
{
    let sep = ", ";
    let mut res = String::new();
    let ghost all = views(parts@);
    let mut i: usize = 0;
    while i < parts.len()
        invariant
            i <= parts@.len(),
            all == views(parts@),
            all.len() == parts@.len(),
            res@ == join(all.take(i as int), sep@),
        decreases parts@.len() - i,
    {
        let ghost before = res@;
        if i > 0 {
            res.append(sep);
        }
        res.append(parts[i]);
        proof {
            let next = all.take(i + 1);
            assert(next.drop_last() =~= all.take(i as int));
            assert(next.last() == parts@[i as int]@);
            if i == 0 {
                assert(next.len() == 1);
                assert(res@ =~= next[0]);
            } else {
                assert(res@ =~= before + sep@ + parts@[i as int]@);
            }
        }
        i = i + 1;
    }
    assert(all.take(parts@.len() as int) =~= all);
    res
}

/// What to ask the reader for.
pub struct SummaryRequest {
    /// The reader URL of the page.
    pub url: String,
    /// The value of the `X-Target-Selector` header.
    pub target_selector: String,
    /// The value of the `X-Remove-Selector` header.
    pub remove_selector: String,
}

/// The reader service.
pub struct Jina {}

impl Jina {
    /// The reader service.
    pub fn new() -> (res: Jina) {
        Jina {  }
    }

    /// The request for a summary of the page at `url` that keeps what
    /// `includes` selects and drops what `excludes` selects.
    pub fn summary_request(&self, url: &str, includes: Vec<&str>, excludes: Vec<&str>) -> (res:
        SummaryRequest)
        ensures
            res.url@ == reader_prefix() + url@,
            res.target_selector@ == join(views(includes@), ", "@),
            res.remove_selector@ == join(views(excludes@), ", "@),
    {
        let mut target = String::from_str("https://r.jina.ai/");
        target.append(url);
        SummaryRequest {
            url: target,
            target_selector: join_selectors(&includes),
            remove_selector: join_selectors(&excludes),
        }
    }
}

} // verus!
