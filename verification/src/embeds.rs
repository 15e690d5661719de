//! The embeds of a lesson page, and how fetched slide PDFs are recorded in them.
use vstd::prelude::*;
use crate::error::ImoocsError;

verus! {

/// The outcome of fetching the PDF of an embedded slide deck.
#[derive(Debug, Clone, Copy, PartialEq, Eq, Structural)]
pub enum FetchStatus {
    /// The PDF was fetched.
    Fetched,
    /// The fetch was skipped (no Google session).
    Skipped,
}

/// One embed of a lesson page.
#[derive(Debug, Clone)]
pub enum Embed {
    /// An embedded Google Slides deck, with what is known of its PDF.
    GoogleSlides {
        embed_url: String,
        export_pdf_url: String,
        export_pptx_url: String,
        local_pdf_path: Option<String>,
        size_bytes: Option<u64>,
        page_count: Option<u32>,
        fetched_at: Option<String>,
        fetch_status: Option<FetchStatus>,
    },
    /// Any other frame.
    Iframe { src: String },
}

/// What fetching one deck gave.
#[derive(Debug, Clone)]
pub struct SlideFetchResult {
    pub local_pdf_path: String,
    pub size_bytes: u64,
    pub page_count: u32,
    pub fetched_at: String,
    pub from_cache: bool,
}

/// The index of the first slide deck at or after `from`.
pub open spec fn next_deck_spec(embeds: Seq<Embed>, from: int, r: Option<usize>) -> bool {
    match r {
        Some(i) => from <= i < embeds.len() && embeds[i as int] is GoogleSlides
            && forall|j: int| from <= j < i ==> !(#[trigger] embeds[j] is GoogleSlides),
        None => forall|j: int| from <= j < embeds.len() ==> !(#[trigger] embeds[j] is GoogleSlides),
    }
}

/// The next slide deck to fetch, starting at `from`.
pub fn next_deck(embeds: &Vec<Embed>, from: usize) -> (r: Option<usize>)
    ensures
        next_deck_spec(embeds@, from as int, r),
{
    let mut i: usize = from;
    while i < embeds.len()
        invariant
            from <= i,
            forall|j: int| from <= j < i && j < embeds@.len() ==> !(#[trigger] embeds@[j] is GoogleSlides),
        decreases embeds@.len() - i,
    {
        match &embeds[i] {
            Embed::GoogleSlides { .. } => {
                return Some(i);
            },
            _ => {},
        }
        i = i + 1;
    }
    None
}

/// The embed after its deck was fetched: the PDF's path, size and time are recorded;
/// the page count only when the PDF reported pages; the status, when `mark_status`,
/// becomes fetched. Other embeds are left as they are.
pub open spec fn with_fetch(e: Embed, res: SlideFetchResult, mark_status: bool) -> Embed {
    match e {
        Embed::GoogleSlides { embed_url, export_pdf_url, export_pptx_url, page_count, fetch_status, .. } =>
            Embed::GoogleSlides {
                embed_url,
                export_pdf_url,
                export_pptx_url,
                local_pdf_path: Some(res.local_pdf_path),
                size_bytes: Some(res.size_bytes),
                page_count: if res.page_count > 0 { Some(res.page_count) } else { page_count },
                fetched_at: Some(res.fetched_at),
                fetch_status: if mark_status { Some(FetchStatus::Fetched) } else { fetch_status },
            },
        _ => e,
    }
}

/// Records the result of fetching the deck at `i`.
pub fn record_fetch(embeds: &mut Vec<Embed>, i: usize, res: SlideFetchResult, mark_status: bool)
    requires
        i < old(embeds)@.len(),
    ensures
        final(embeds)@ == old(embeds)@.update(i as int, with_fetch(old(embeds)@[i as int], res, mark_status)),
{
    let updated = match &embeds[i] {
        Embed::GoogleSlides { embed_url, export_pdf_url, export_pptx_url, page_count, fetch_status, .. } =>
            Embed::GoogleSlides {
                embed_url: embed_url.clone(),
                export_pdf_url: export_pdf_url.clone(),
                export_pptx_url: export_pptx_url.clone(),
                local_pdf_path: Some(res.local_pdf_path),
                size_bytes: Some(res.size_bytes),
                page_count: if res.page_count > 0 { Some(res.page_count) } else { *page_count },
                fetched_at: Some(res.fetched_at),
                fetch_status: if mark_status { Some(FetchStatus::Fetched) } else { *fetch_status },
            },
        Embed::Iframe { src } => Embed::Iframe { src: src.clone() },
    };
    embeds.set(i, updated);
}

/// The embeds after fetching the slide decks from `from` on, in order, with `replies`
/// as the fetcher's answers in turn, and how the run ends. Each deck takes the next
/// reply: a fetched PDF is recorded and the run goes on; the first error ends the run
/// at once and is its result, leaving that deck and every later embed as they were.
/// Decks left when the replies run out are left as they were.
pub open spec fn fetch_run(
    e: Seq<Embed>,
    from: nat,
    replies: Seq<Result<SlideFetchResult, ImoocsError>>,
) -> (Seq<Embed>, Result<(), ImoocsError>)
    decreases e.len() - from,
{
    if from >= e.len() {
        (e, Ok(()))
    } else if !(e[from as int] is GoogleSlides) {
        fetch_run(e, from + 1, replies)
    } else if replies.len() == 0 {
        (e, Ok(()))
    } else {
        match replies[0] {
            Err(x) => (e, Err(x)),
            Ok(res) => fetch_run(e.update(from as int, with_fetch(e[from as int], res, true)), from + 1, replies.skip(1)),
        }
    }
}

/// Embeds that are not decks are passed over.
proof fn lemma_fetch_run_skips(
    e: Seq<Embed>,
    from: nat,
    to: nat,
    replies: Seq<Result<SlideFetchResult, ImoocsError>>,
)
    requires
        from <= to <= e.len(),
        forall|j: int| from <= j < to ==> !(#[trigger] e[j] is GoogleSlides),
    ensures
        fetch_run(e, from, replies) == fetch_run(e, to, replies),
    decreases to - from,
{
    if from < to {
        lemma_fetch_run_skips(e, from + 1, to, replies);
    }
}

/// A run never touches the embeds before where it starts, and a run that ends in an
/// error stopped at a slide deck: that deck and every embed after it are left as they
/// were.
pub proof fn lemma_failed_fetch_stops_the_run(
    e: Seq<Embed>,
    from: nat,
    replies: Seq<Result<SlideFetchResult, ImoocsError>>,
)
    requires
        from <= e.len(),
    ensures
        fetch_run(e, from, replies).0.len() == e.len(),
        forall|j: int| 0 <= j < from ==> #[trigger] fetch_run(e, from, replies).0[j] == e[j],
        fetch_run(e, from, replies).1 is Err ==> exists|k: int|
            from <= k < e.len() && #[trigger] e[k] is GoogleSlides
                && forall|j: int| k <= j < e.len() ==> #[trigger] fetch_run(e, from, replies).0[j] == e[j],
    decreases e.len() - from,
{
    if from >= e.len() {
    } else if !(e[from as int] is GoogleSlides) {
        lemma_failed_fetch_stops_the_run(e, from + 1, replies);
    } else if replies.len() == 0 {
    } else {
        match replies[0] {
            Err(x) => {
                assert(e[from as int] is GoogleSlides);
            },
            Ok(res) => {
                let e2 = e.update(from as int, with_fetch(e[from as int], res, true));
                lemma_failed_fetch_stops_the_run(e2, from + 1, replies.skip(1));
                let out = fetch_run(e2, from + 1, replies.skip(1));
                assert(fetch_run(e, from, replies) == out);
                if out.1 is Err {
                    let k = choose|k: int| from + 1 <= k < e2.len() && #[trigger] e2[k] is GoogleSlides
                        && forall|j: int| k <= j < e2.len() ==> #[trigger] out.0[j] == e2[j];
                    assert(e[k] is GoogleSlides);
                    assert forall|j: int| k <= j < e.len() implies #[trigger] out.0[j] == e[j] by {
                        assert(out.0[j] == e2[j]);
                    }
                }
            },
        }
    }
}

/// Fetches the slide PDFs of the embeds in order, the fetcher's answers being
/// `replies` in turn; the first failed fetch ends the run with its error.
pub fn populate_slide_pdfs_from(
    embeds: &mut Vec<Embed>,
    replies: Vec<Result<SlideFetchResult, ImoocsError>>,
) -> (r: Result<(), ImoocsError>)
    ensures
        (final(embeds)@, r) == fetch_run(old(embeds)@, 0, replies@),
{
    let ghost goal = fetch_run(embeds@, 0, replies@);
    let mut rest = replies;
    let mut pos: usize = 0;
    loop
        invariant
            pos <= embeds@.len(),
            fetch_run(embeds@, pos as nat, rest@) == goal,
            goal == fetch_run(old(embeds)@, 0, replies@),
        decreases embeds@.len() - pos,
    {
        match next_deck(embeds, pos) {
            None => {
                proof {
                    lemma_fetch_run_skips(embeds@, pos as nat, embeds@.len(), rest@);
                }
                return Ok(());
            },
            Some(i) => {
                proof {
                    lemma_fetch_run_skips(embeds@, pos as nat, i as nat, rest@);
                }
                if rest.len() == 0 {
                    return Ok(());
                }
                let ghost before = rest@;
                let reply = rest.remove(0);
                proof {
                    assert(rest@ =~= before.skip(1));
                }
                match reply {
                    Err(e) => {
                        return Err(e);
                    },
                    Ok(res) => {
                        let n = embeds.len();
                        assert(i < n);
                        let next = i + 1;
                        record_fetch(embeds, i, res, true);
                        pos = next;
                    },
                }
            },
        }
    }
}

} // verus!
