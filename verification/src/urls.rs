//! Finding URLs in terminal output and the grid cells they cover.
use vstd::prelude::*;
use vstd::utf8::{char_is_scalar, encode_scalar, encode_utf8};

verus! {

/// The URLs `linkify::LinkFinder` (restricted to URLs) finds in a text:
/// for each, its start and end byte offsets and its text.
pub uninterp spec fn spec_links(text: Seq<char>) -> Seq<(usize, usize, Seq<char>)>;

/// Finds the URLs in `text` with `linkify::LinkFinder`, restricted to URLs.
///
/// Trusted: the result is `spec_links` of the text, and each link lies
/// within the text (`Link::as_str` slices the text from `start` to `end`).
#[verifier::external_body]
fn find_links(text: &str) -> (r: Vec<(usize, usize, String)>)
    ensures
        r@.map_values(|l: (usize, usize, String)| (l.0, l.1, l.2@)) == spec_links(text@),
        links_within(r@, encode_utf8(text@).len() as int),
{
    let mut finder = linkify::LinkFinder::new();
    finder.kinds(&[linkify::LinkKind::Url]);
    finder.links(text).map(|l| (l.start(), l.end(), l.as_str().to_string())).collect()
}

/// Whether every link lies within a text of `n` bytes.
pub open spec fn links_within(links: Seq<(usize, usize, String)>, n: int) -> bool {
    forall|i: int| 0 <= i < links.len() ==> #[trigger] links[i].0 <= links[i].1 && links[i].1 <= n
}

/// The byte offset at which character `c` of `t` starts.
pub open spec fn byte_offset(t: Seq<char>, c: int) -> int {
    encode_utf8(t.take(c)).len() as int
}

/// The character index for byte offset `b` of `t`: the character starting
/// there, the number of characters at the end of the text, and 0 for a
/// byte inside a character.
pub open spec fn char_index_at(t: Seq<char>, b: int) -> int {
    if b == encode_utf8(t).len() {
        t.len() as int
    } else if exists|c: int| 0 <= c < t.len() && byte_offset(t, c) == b {
        choose|c: int| 0 <= c < t.len() && byte_offset(t, c) == b
    } else {
        0
    }
}

/// Encoding a sequence with one more character appends that character's
/// encoding.
pub proof fn lemma_encode_push(s: Seq<char>, x: char)
    ensures
        encode_utf8(s.push(x)) == encode_utf8(s) + encode_scalar(x as u32),
    decreases s.len(),
{
    if s.len() == 0 {
        assert(s.push(x).drop_first() =~= Seq::<char>::empty());
        assert(s.push(x)[0] == x);
        assert(encode_utf8(Seq::<char>::empty()) =~= Seq::<u8>::empty());
        assert(encode_utf8(s) =~= Seq::<u8>::empty());
        assert(encode_utf8(s.push(x)) =~= encode_scalar(x as u32) + encode_utf8(s.push(x).drop_first()));
        assert(encode_utf8(s.push(x)) =~= encode_utf8(s) + encode_scalar(x as u32));
    } else {
        lemma_encode_push(s.drop_first(), x);
        assert(s.push(x).drop_first() =~= s.drop_first().push(x));
        assert(encode_utf8(s.push(x)) =~= encode_utf8(s) + encode_scalar(x as u32));
    }
}

/// Each character takes one to four bytes.
pub proof fn lemma_scalar_len(c: char)
    ensures
        1 <= encode_scalar(c as u32).len() <= 4,
        encode_scalar(c as u32).len() == (if (c as u32) <= 0x7F {
            1int
        } else if (c as u32) <= 0x7FF {
            2
        } else if (c as u32) <= 0xFFFF {
            3
        } else {
            4
        }),
{
    char_is_scalar(c);
}

/// Later characters start at later bytes.
pub proof fn lemma_offsets_increase(t: Seq<char>, i: int, j: int)
    requires
        0 <= i < j <= t.len(),
    ensures
        byte_offset(t, i) < byte_offset(t, j),
        byte_offset(t, j) <= encode_utf8(t).len(),
    decreases t.len() - i,
{
    assert(t.take(i + 1) =~= t.take(i).push(t[i]));
    lemma_encode_push(t.take(i), t[i]);
    lemma_scalar_len(t[i]);
    if i + 1 < j {
        lemma_offsets_increase(t, i + 1, j);
    } else if j < t.len() {
        lemma_offsets_increase(t, j, t.len() as int);
    }
    assert(t.take(t.len() as int) =~= t);
}

/// The table from byte offsets of `text` (and the end of it) to character
/// indices, with 0 for bytes inside a character.
pub fn char_index_table(text: &str) -> (r: Vec<usize>)
    requires
        encode_utf8(text@).len() < usize::MAX,
    ensures
        r@.len() == encode_utf8(text@).len() + 1,
        forall|b: int| 0 <= b < r@.len() ==> #[trigger] r@[b] == char_index_at(text@, b),
{
    let ghost t = text@;
    let total = text.as_bytes().len();
    let mut table: Vec<usize> = Vec::new();
    let mut k: usize = 0;
    while k <= total
        invariant
            total == encode_utf8(t).len(),
            total < usize::MAX,
            k <= total + 1,
            table@.len() == k,
            forall|j: int| 0 <= j < k ==> #[trigger] table@[j] == 0,
        decreases total + 1 - k,
    {
        table.push(0);
        k = k + 1;
    }
    let n = text.unicode_len();
    let mut i: usize = 0;
    let mut b: usize = 0;
    while i < n
        invariant
            t == text@,
            n == t.len(),
            total == encode_utf8(t).len(),
            table@.len() == total + 1,
            i <= n,
            b == byte_offset(t, i as int),
            b <= total,
            forall|j: int| 0 <= j < i ==> #[trigger] table@[byte_offset(t, j)] == j,
            forall|k2: int|
                0 <= k2 <= total && (forall|j: int| 0 <= j < i ==> byte_offset(t, j) != k2) ==> #[trigger] table@[k2]
                    == 0,
        decreases n - i,
    {
        let c = text.get_char(i);
        proof {
            if i + 1 <= n {
                lemma_offsets_increase(t, i as int, (i + 1) as int);
            }
            assert forall|j: int| 0 <= j < i implies byte_offset(t, j) < b by {
                lemma_offsets_increase(t, j, i as int);
            }
            assert(t.take(i + 1) =~= t.take(i as int).push(c));
            lemma_encode_push(t.take(i as int), c);
            lemma_scalar_len(c);
        }
        table.set(b, i);
        let v = c as u32;
        let w: usize = if v <= 0x7F {
            1
        } else if v <= 0x7FF {
            2
        } else if v <= 0xFFFF {
            3
        } else {
            4
        };
        b = b + w;
        i = i + 1;
    }
    proof {
        assert(t.take(n as int) =~= t);
        assert forall|j: int| 0 <= j < n implies byte_offset(t, j) < total by {
            lemma_offsets_increase(t, j, n as int);
        }
    }
    table.set(total, n);
    proof {
        assert forall|k2: int| 0 <= k2 < table@.len() implies #[trigger] table@[k2] == char_index_at(t, k2) by {
            if k2 < total {
                if exists|c: int| 0 <= c < t.len() && byte_offset(t, c) == k2 {
                    let c = choose|c: int| 0 <= c < t.len() && byte_offset(t, c) == k2;
                    assert(table@[byte_offset(t, c)] == c);
                } else {
                    assert(forall|j: int| 0 <= j < n ==> byte_offset(t, j) != k2);
                }
            }
        }
    }
    table
}

/// One line of terminal text: its row, its characters, and for each
/// character the grid column it starts at and how many columns it takes.
#[derive(Clone, Debug)]
pub struct LineText {
    pub line: i32,
    pub text: String,
    pub col_offsets: Vec<(usize, usize)>,
}

/// A URL on the terminal grid: its row, the columns it covers (end
/// exclusive), and its text.
#[derive(Clone, Debug, PartialEq, Eq)]
pub struct UrlRegion {
    pub line: i32,
    pub start_col: usize,
    pub end_col: usize,
    pub url: String,
}

/// The content of a URL region.
pub struct RegionView {
    pub line: i32,
    pub start_col: int,
    pub end_col: int,
    pub url: Seq<char>,
}

/// The content of a list of URL regions.
pub open spec fn region_views(v: Seq<UrlRegion>) -> Seq<RegionView> {
    v.map_values(|r: UrlRegion| RegionView { line: r.line, start_col: r.start_col as int, end_col: r.end_col as int, url: r.url@ })
}

/// The region of one link on a line, if it maps onto the line's columns:
/// from the column of its first character to the end of its last one
/// (clamped to the line), skipped when it starts past the line's
/// characters or ends at its start.
pub open spec fn link_region(
    line: i32,
    t: Seq<char>,
    offsets: Seq<(usize, usize)>,
    link: (usize, usize, Seq<char>),
) -> Option<RegionView> {
    let start_char = char_index_at(t, link.0 as int);
    let end_char = char_index_at(t, link.1 as int);
    if start_char >= offsets.len() || end_char == 0 {
        None
    } else {
        let last = if end_char - 1 < offsets.len() - 1 { end_char - 1 } else { offsets.len() - 1 };
        Some(RegionView {
            line,
            start_col: offsets[start_char].0 as int,
            end_col: offsets[last].0 + offsets[last].1,
            url: link.2,
        })
    }
}

/// The regions of the links found on a line, in order.
pub open spec fn line_regions(
    line: i32,
    t: Seq<char>,
    offsets: Seq<(usize, usize)>,
    links: Seq<(usize, usize, Seq<char>)>,
) -> Seq<RegionView>
    decreases links.len(),
{
    if links.len() == 0 {
        Seq::empty()
    } else {
        let prev = line_regions(line, t, offsets, links.drop_last());
        match link_region(line, t, offsets, links.last()) {
            Some(r) => prev.push(r),
            None => prev,
        }
    }
}

/// Whether no column offset of a line overflows when its width is added.
pub open spec fn offsets_fit(offsets: Seq<(usize, usize)>) -> bool {
    forall|i: int| 0 <= i < offsets.len() ==> #[trigger] offsets[i].0 + offsets[i].1 <= usize::MAX
}

/// The regions of the URLs found on every line, line by line.
pub open spec fn all_regions(lines: Seq<LineText>) -> Seq<RegionView>
    decreases lines.len(),
{
    if lines.len() == 0 {
        Seq::empty()
    } else {
        let l = lines.last();
        all_regions(lines.drop_last()) + line_regions(l.line, l.text@, l.col_offsets@, spec_links(l.text@))
    }
}

/// The regions of the given links on one line.
pub fn regions_for_links(line: &LineText, links: &Vec<(usize, usize, String)>) -> (r: Vec<UrlRegion>)
    requires
        offsets_fit(line.col_offsets@),
        links_within(links@, encode_utf8(line.text@).len() as int),
        encode_utf8(line.text@).len() < usize::MAX,
    ensures
        region_views(r@) == line_regions(
            line.line,
            line.text@,
            line.col_offsets@,
            links@.map_values(|l: (usize, usize, String)| (l.0, l.1, l.2@)),
        ),
{
    let ghost lv = links@.map_values(|l: (usize, usize, String)| (l.0, l.1, l.2@));
    let table = char_index_table(line.text.as_str());
    let offsets = &line.col_offsets;
    let mut out: Vec<UrlRegion> = Vec::new();
    let mut i: usize = 0;
    while i < links.len()
        invariant
            i <= links@.len(),
            lv == links@.map_values(|l: (usize, usize, String)| (l.0, l.1, l.2@)),
            offsets == &line.col_offsets,
            offsets_fit(offsets@),
            table@.len() == encode_utf8(line.text@).len() + 1,
            forall|b: int| 0 <= b < table@.len() ==> #[trigger] table@[b] == char_index_at(line.text@, b),
            links_within(links@, encode_utf8(line.text@).len() as int),
            region_views(out@) == line_regions(line.line, line.text@, offsets@, lv.take(i as int)),
        decreases links@.len() - i,
    {
        proof {
            assert(lv.take(i + 1).drop_last() == lv.take(i as int));
            assert(lv.take(i + 1).last() == lv[i as int]);
        }
        let start_char = table[links[i].0];
        let end_char = table[links[i].1];
        if !(start_char >= offsets.len() || end_char == 0) {
            let unclamped = end_char - 1;
            let last = if unclamped < offsets.len() - 1 { unclamped } else { offsets.len() - 1 };
            let (start_col, _) = offsets[start_char];
            let (last_col, last_width) = offsets[last];
            let ghost before = out@;
            out.push(UrlRegion { line: line.line, start_col, end_col: last_col + last_width, url: links[i].2.clone() });
            proof {
                assert(region_views(out@) =~= region_views(before).push(region_views(out@).last()));
            }
        }
        i = i + 1;
    }
    proof {
        assert(lv.take(links@.len() as int) == lv);
    }
    out
}

/// Finds the URLs on the given lines and the grid regions they cover.
pub fn detect_urls(lines: &Vec<LineText>) -> (r: Vec<UrlRegion>)
    requires
        forall|i: int| 0 <= i < lines@.len() ==> offsets_fit(#[trigger] lines@[i].col_offsets@),
        forall|i: int| 0 <= i < lines@.len() ==> encode_utf8((#[trigger] lines@[i]).text@).len() < usize::MAX,
    ensures
        region_views(r@) == all_regions(lines@),
{
    let mut out: Vec<UrlRegion> = Vec::new();
    let mut i: usize = 0;
    while i < lines.len()
        invariant
            i <= lines@.len(),
            forall|k: int| 0 <= k < lines@.len() ==> offsets_fit(#[trigger] lines@[k].col_offsets@),
            forall|k: int| 0 <= k < lines@.len() ==> encode_utf8((#[trigger] lines@[k]).text@).len() < usize::MAX,
            region_views(out@) == all_regions(lines@.take(i as int)),
        decreases lines@.len() - i,
    {
        proof {
            assert(lines@.take(i + 1).drop_last() == lines@.take(i as int));
            assert(lines@.take(i + 1).last() == lines@[i as int]);
        }
        let line = &lines[i];
        let links = find_links(line.text.as_str());
        let mut regions = regions_for_links(line, &links);
        let ghost before = out@;
        let ghost added = regions@;
        out.append(&mut regions);
        proof {
            assert(region_views(out@) =~= region_views(before) + region_views(added));
        }
        i = i + 1;
    }
    proof {
        assert(lines@.take(lines@.len() as int) == lines@);
    }
    out
}

} // verus!
