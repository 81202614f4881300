//! Knowledge base: article validation and slugs, feedback ratings, and
//! article templates.
use vstd::prelude::*;
use vstd::string::StringExecFns;
use vstd::utf8::encode_utf8;
use crate::common::{blank, chars_of, in_time_range, is_blank, is_white_space, lowercase, new_id,
    now_millis, replace_all, replace_text, string_of, unicode_lowercase, white_space};
use crate::notifications::TemplateVariable;

verus! {

#[derive(Debug, Clone, Copy, PartialEq, Eq, Structural)]
pub enum ArticleStatus {
    Draft,
    PendingReview,
    Published,
    Archived,
    Deprecated,
}

#[derive(Debug, Clone, Copy, PartialEq, Eq, Structural)]
pub enum ArticleType {
    HowTo,
    FAQ,
    Troubleshooting,
    BestPractice,
    Policy,
    Procedure,
    Reference,
    Tutorial,
    WhitePaper,
    CaseStudy,
}

#[derive(Debug, Clone, Copy, PartialEq, Eq, Structural)]
pub enum KnowledgeCategory {
    Technical,
    HR,
    Finance,
    Operations,
    Sales,
    Marketing,
    Legal,
    Compliance,
    IT,
    CustomerService,
    Product,
    Training,
}

#[derive(Debug, Clone, Copy, PartialEq, Eq, Structural)]
pub enum RevisionType {
    Create,
    Edit,
    Publish,
    Archive,
    Restore,
    Delete,
}

#[derive(Debug, Clone, Copy, PartialEq, Eq, Structural)]
pub enum WorkflowType {
    Review,
    Approval,
    Translation,
    Update,
    Deprecation,
}

#[derive(Debug, Clone, Copy, PartialEq, Eq, Structural)]
pub enum WorkflowStatus {
    Pending,
    InProgress,
    Completed,
    Rejected,
    Cancelled,
}

#[derive(Debug, Clone, Copy, PartialEq, Eq, Structural)]
pub enum TranslationStatus {
    Pending,
    InProgress,
    Completed,
    NeedsReview,
    Outdated,
}

#[derive(Debug, Clone, Copy, PartialEq, Eq, Structural)]
pub enum CommentStatus {
    Pending,
    Approved,
    Rejected,
    Spam,
    Deleted,
}

#[derive(Debug, Clone, Copy, PartialEq, Eq, Structural)]
pub enum LinkType {
    Related,
    SeeAlso,
    Prerequisite,
    Next,
    Previous,
    Parent,
}

#[derive(Debug, Clone)]
pub struct TemplatePlaceholder {
    pub name: String,
    pub description: String,
    pub default_value: Option<String>,
    pub is_required: bool,
}

#[derive(Debug, Clone)]
pub struct TopSearch {
    pub query: String,
    pub count: i64,
    pub results_found: bool,
}

/// Why a knowledge-base request was refused.
#[derive(Debug, Clone, Copy, PartialEq, Eq, Structural)]
pub enum KnowledgeError {
    TitleRequired,
    ContentRequired,
    RatingOutOfRange,
    /// Only a draft or an article pending review can be published.
    NotPublishable,
}

/// Whether `char::is_alphanumeric` holds of `c`.
pub uninterp spec fn is_alnum(c: char) -> bool;

/// `char::is_alphanumeric`; the result is named `is_alnum`. Stated besides:
/// on ASCII characters it holds of letters and digits only.
#[verifier::external_body]
fn alphanumeric(c: char) -> (r: bool)
    ensures
        r == is_alnum(c),
        (c as u32) < 128 ==> (r <==> (('a' <= c && c <= 'z') || ('A' <= c && c <= 'Z') || ('0' <= c && c <= '9'))),
{
    c.is_alphanumeric()
}

/// A character of a lower-cased title as the slug sees it: spaces become dashes.
pub open spec fn dashed(c: char) -> char {
    if c == ' ' { '-' } else { c }
}

/// The characters a slug keeps: dashes, letters and digits.
pub open spec fn slug_keeps(c: char) -> bool {
    c == '-' || is_alnum(c)
}

/// The characters of a lower-cased title that a slug keeps, spaces turned
/// to dashes.
pub open spec fn slug_body(l: Seq<char>) -> Seq<char>
    decreases l.len(),
{
    if l.len() == 0 {
        Seq::empty()
    } else {
        let c = dashed(l.last());
        let rest = slug_body(l.drop_last());
        if slug_keeps(c) { rest.push(c) } else { rest }
    }
}

/// `s` without its leading and trailing dashes.
pub open spec fn trim_dashes(s: Seq<char>) -> Seq<char>
    decreases s.len(),
{
    if s.len() == 0 {
        s
    } else if s[0] == '-' {
        trim_dashes(s.skip(1))
    } else if s.last() == '-' {
        trim_dashes(s.drop_last())
    } else {
        s
    }
}

/// The slug of a title: lower-cased, spaces turned to dashes, everything but
/// dashes, letters and digits dropped, surrounding dashes trimmed.
pub open spec fn slug(title: Seq<char>) -> Seq<char> {
    trim_dashes(slug_body(unicode_lowercase(title)))
}

proof fn lemma_body_kept(l: Seq<char>)
    ensures
        forall|k: int| 0 <= k < slug_body(l).len() ==> slug_keeps(#[trigger] slug_body(l)[k]),
    decreases l.len(),
{
    if l.len() > 0 {
        lemma_body_kept(l.drop_last());
        let rest = slug_body(l.drop_last());
        let c = dashed(l.last());
        if slug_keeps(c) {
            assert forall|k: int| 0 <= k < rest.push(c).len() implies slug_keeps(#[trigger] rest.push(c)[k]) by {
                if k < rest.len() {
                    assert(rest.push(c)[k] == rest[k]);
                }
            }
        }
    }
}

proof fn lemma_trim_shape(s: Seq<char>)
    requires
        forall|k: int| 0 <= k < s.len() ==> slug_keeps(#[trigger] s[k]),
    ensures
        forall|k: int| 0 <= k < trim_dashes(s).len() ==> slug_keeps(#[trigger] trim_dashes(s)[k]),
        trim_dashes(s).len() > 0 ==> trim_dashes(s)[0] != '-' && trim_dashes(s).last() != '-',
    decreases s.len(),
{
    if s.len() > 0 {
        if s[0] == '-' {
            assert forall|k: int| 0 <= k < s.skip(1).len() implies slug_keeps(#[trigger] s.skip(1)[k]) by {
                assert(s.skip(1)[k] == s[k + 1]);
            }
            lemma_trim_shape(s.skip(1));
        } else if s.last() == '-' {
            assert forall|k: int| 0 <= k < s.drop_last().len() implies slug_keeps(#[trigger] s.drop_last()[k]) by {
                assert(s.drop_last()[k] == s[k]);
            }
            lemma_trim_shape(s.drop_last());
        }
    }
}

/// A slug holds only dashes, letters and digits, and neither begins nor ends
/// with a dash.
pub proof fn law_slug_shape(title: Seq<char>)
    ensures
        forall|k: int| 0 <= k < slug(title).len() ==> slug_keeps(#[trigger] slug(title)[k]),
        slug(title).len() > 0 ==> slug(title)[0] != '-' && slug(title).last() != '-',
{
    lemma_body_kept(unicode_lowercase(title));
    lemma_trim_shape(slug_body(unicode_lowercase(title)));
}

proof fn lemma_trim_front(s: Seq<char>, i: int)
    requires
        0 <= i <= s.len(),
        forall|k: int| 0 <= k < i ==> s[k] == '-',
    ensures
        trim_dashes(s) == trim_dashes(s.skip(i)),
    decreases i,
{
    if i > 0 {
        assert(s.skip(1).skip(i - 1) =~= s.skip(i));
        lemma_trim_front(s.skip(1), i - 1);
    } else {
        assert(s.skip(0) =~= s);
    }
}

proof fn lemma_trim_back(s: Seq<char>, j: int)
    requires
        0 < j <= s.len(),
        s[0] != '-',
        forall|k: int| j <= k < s.len() ==> s[k] == '-',
    ensures
        trim_dashes(s) == trim_dashes(s.take(j)),
    decreases s.len() - j,
{
    if j < s.len() {
        assert(s.drop_last().take(j) =~= s.take(j));
        lemma_trim_back(s.drop_last(), j);
    } else {
        assert(s.take(j) =~= s);
    }
}

/// The lower-cased title with spaces turned to dashes and everything but
/// dashes, letters and digits dropped.
fn slug_body_of(title: &str) -> (body: Vec<char>)
    ensures
        body@ == slug_body(unicode_lowercase(title@)),
{
    let lower = lowercase(title);
    let lc = chars_of(lower.as_str());
    let mut body: Vec<char> = Vec::new();
    let mut i: usize = 0;
    while i < lc.len()
        invariant
            i <= lc.len(),
            body@ == slug_body(lc@.take(i as int)),
        decreases lc.len() - i,
    {
        assert(lc@.take(i + 1).drop_last() =~= lc@.take(i as int));
        let c = if lc[i] == ' ' { '-' } else { lc[i] };
        if c == '-' || alphanumeric(c) {
            body.push(c);
        }
        i = i + 1;
    }
    assert(lc@.take(lc.len() as int) =~= lc@);
    body
}

/// The slug of a category name: like an article's, but dashes at either end
/// are kept.
pub open spec fn category_slug_of(name: Seq<char>) -> Seq<char> {
    slug_body(unicode_lowercase(name))
}

/// The slug of a category name (see `category_slug_of`).
pub fn category_slug(name: &str) -> (r: String)
    ensures
        r@ == category_slug_of(name@),
{
    string_of(&slug_body_of(name))
}

impl ArticleService {
    /// The slug of a title (see `slug`).
    pub fn generate_slug(title: &str) -> (r: String)
        ensures
            r@ == slug(title@),
    {
        let body = slug_body_of(title);
        let ghost b = body@;
        let mut start: usize = 0;
        while start < body.len() && body[start] == '-'
            invariant
                start <= body.len(),
                b == body@,
                forall|k: int| 0 <= k < start ==> b[k] == '-',
            decreases body.len() - start,
        {
            start = start + 1;
        }
        proof {
            lemma_trim_front(b, start as int);
        }
        let mut end: usize = body.len();
        while end > start && body[end - 1] == '-'
            invariant
                start <= end <= body.len(),
                b == body@,
                forall|k: int| end <= k < b.len() ==> b[k] == '-',
            decreases end - start,
        {
            end = end - 1;
        }
        let ghost rest = b.skip(start as int);
        proof {
            if end > start {
                assert(rest[0] != '-');
                assert forall|k: int| end - start <= k < rest.len() implies rest[k] == '-' by {
                    assert(rest[k] == b[start + k]);
                }
                lemma_trim_back(rest, end - start);
                assert(rest.take(end - start) =~= b.subrange(start as int, end as int));
                let m = b.subrange(start as int, end as int);
                assert(m[0] != '-' && m.last() != '-');
            } else {
                if rest.len() > 0 {
                    assert forall|k: int| 0 <= k < rest.len() implies rest[k] == '-' by {
                        assert(rest[k] == b[start + k]);
                    }
                    lemma_trim_front(rest, rest.len() as int);
                    assert(rest.skip(rest.len() as int) =~= Seq::<char>::empty());
                }
                assert(b.subrange(start as int, end as int) =~= Seq::<char>::empty());
                assert(trim_dashes(Seq::<char>::empty()) == Seq::<char>::empty());
            }
        }
        let mut out: Vec<char> = Vec::new();
        let mut k = start;
        while k < end
            invariant
                start <= k <= end,
                end <= body.len(),
                out@ == body@.subrange(start as int, k as int),
            decreases end - k,
        {
            out.push(body[k]);
            k = k + 1;
        }
        string_of(&out)
    }
}

/// An article needs a title, then content, that are not blank.
pub fn validate_article(title: &str, content: &str) -> (r: Result<(), KnowledgeError>)
    ensures
        is_blank(title@) ==> r == Err::<(), KnowledgeError>(KnowledgeError::TitleRequired),
        !is_blank(title@) && is_blank(content@) ==> r == Err::<(), KnowledgeError>(KnowledgeError::ContentRequired),
        !is_blank(title@) && !is_blank(content@) ==> r is Ok,
{
    if blank(title) {
        return Err(KnowledgeError::TitleRequired);
    }
    if blank(content) {
        return Err(KnowledgeError::ContentRequired);
    }
    Ok(())
}

/// A feedback rating, when given, lies between one and five.
pub fn validate_rating(rating: Option<i32>) -> (r: Result<(), KnowledgeError>)
    ensures
        r is Ok <==> (rating matches Some(x) ==> 1 <= x <= 5),
        r is Err ==> r == Err::<(), KnowledgeError>(KnowledgeError::RatingOutOfRange),
{
    match rating {
        Some(x) => {
            if x < 1 || x > 5 {
                return Err(KnowledgeError::RatingOutOfRange);
            }
            Ok(())
        },
        None => Ok(()),
    }
}

/// The value of the first variable named `name`, if any.
pub open spec fn lookup(vars: Seq<TemplateVariable>, name: Seq<char>) -> Option<Seq<char>>
    decreases vars.len(),
{
    if vars.len() == 0 {
        None
    } else if vars[0].name@ == name {
        Some(vars[0].value@)
    } else {
        lookup(vars.skip(1), name)
    }
}

/// What placeholder `p` is filled with: the given value, else its default,
/// else nothing.
pub open spec fn fill_value(p: TemplatePlaceholder, vars: Seq<TemplateVariable>) -> Seq<char> {
    match lookup(vars, p.name@) {
        Some(v) => v,
        None => match p.default_value {
            Some(d) => d@,
            None => Seq::empty(),
        },
    }
}

/// `content` with the placeholders filled in one after the other.
pub open spec fn applied(content: Seq<char>, ps: Seq<TemplatePlaceholder>, vars: Seq<TemplateVariable>) -> Seq<char>
    decreases ps.len(),
{
    if ps.len() == 0 {
        content
    } else {
        replace_all(applied(content, ps.drop_last(), vars), "{{"@ + ps.last().name@ + "}}"@,
            fill_value(ps.last(), vars))
    }
}

fn lookup_exec(vars: &Vec<TemplateVariable>, name: &String) -> (r: Option<usize>)
    ensures
        match r {
            Some(i) => i < vars.len() && lookup(vars@, name@) == Some(vars@[i as int].value@),
            None => lookup(vars@, name@) is None,
        },
{
    let mut i: usize = 0;
    assert(vars@.skip(0) =~= vars@);
    while i < vars.len()
        invariant
            i <= vars.len(),
            lookup(vars@, name@) == lookup(vars@.skip(i as int), name@),
        decreases vars.len() - i,
    {
        let ghost rest = vars@.skip(i as int);
        assert(rest[0] == vars@[i as int]);
        assert(rest.skip(1) =~= vars@.skip(i + 1));
        if vars[i].name == *name {
            return Some(i);
        }
        i = i + 1;
    }
    None
}

/// Fills the placeholders of a template's content with the given values
/// (see `applied`).
fn fill_placeholders(content: &str, placeholders: &Vec<TemplatePlaceholder>, vars: &Vec<TemplateVariable>) -> (r: String)
    ensures
        r@ == applied(content@, placeholders@, vars@),
{
    let mut result = String::from_str(content);
    let mut i: usize = 0;
    while i < placeholders.len()
        invariant
            i <= placeholders.len(),
            result@ == applied(content@, placeholders@.take(i as int), vars@),
        decreases placeholders.len() - i,
    {
        let p = &placeholders[i];
        let value = match lookup_exec(vars, &p.name) {
            Some(k) => vars[k].value.clone(),
            None => match &p.default_value {
                Some(d) => d.clone(),
                None => String::new(),
            },
        };
        let pat = String::from_str("{{").concat(p.name.as_str()).concat("}}");
        proof {
            reveal_strlit("{{");
            reveal_strlit("}}");
            assert(placeholders@.take(i + 1).drop_last() =~= placeholders@.take(i as int));
        }
        result = replace_text(result.as_str(), pat.as_str(), value.as_str());
        i = i + 1;
    }
    assert(placeholders@.take(placeholders.len() as int) =~= placeholders@);
    result
}

/// The words of `s`: its maximal runs of characters that are not white
/// space, in order (what `str::split_whitespace` yields).
pub open spec fn words(s: Seq<char>) -> Seq<Seq<char>>
    decreases s.len(),
{
    if s.len() == 0 {
        Seq::empty()
    } else {
        let w = words(s.drop_last());
        let c = s.last();
        if is_white_space(c) {
            w
        } else if s.len() >= 2 && !is_white_space(s[s.len() - 2]) {
            w.update(w.len() - 1, w.last().push(c))
        } else {
            w.push(seq![c])
        }
    }
}

/// `w` without the characters at either end that are not letters or digits
/// (what `str::trim_matches` with `!char::is_alphanumeric` leaves).
pub open spec fn trim_non_alnum(w: Seq<char>) -> Seq<char>
    decreases w.len(),
{
    if w.len() == 0 {
        w
    } else if !is_alnum(w[0]) {
        trim_non_alnum(w.skip(1))
    } else if !is_alnum(w.last()) {
        trim_non_alnum(w.drop_last())
    } else {
        w
    }
}

/// Whether a trimmed word is kept as a search token: longer than two bytes
/// in UTF-8.
pub open spec fn keeps_token(t: Seq<char>) -> bool {
    encode_utf8(t).len() > 2
}

/// The trimmed words of `ws` that are kept as tokens, in order.
pub open spec fn tokens_of(ws: Seq<Seq<char>>) -> Seq<Seq<char>>
    decreases ws.len(),
{
    if ws.len() == 0 {
        Seq::empty()
    } else {
        let r = tokens_of(ws.drop_last());
        let t = trim_non_alnum(ws.last());
        if keeps_token(t) { r.push(t) } else { r }
    }
}

/// The search tokens of a query: its lower-cased words, trimmed of anything
/// but letters and digits at either end, those longer than two bytes.
pub open spec fn query_tokens(query: Seq<char>) -> Seq<Seq<char>> {
    tokens_of(words(unicode_lowercase(query)))
}

proof fn lemma_trim_alnum_front(s: Seq<char>, i: int)
    requires
        0 <= i <= s.len(),
        forall|k: int| 0 <= k < i ==> !is_alnum(#[trigger] s[k]),
    ensures
        trim_non_alnum(s) == trim_non_alnum(s.skip(i)),
    decreases i,
{
    if i > 0 {
        assert(s.skip(1).skip(i - 1) =~= s.skip(i));
        assert forall|k: int| 0 <= k < i - 1 implies !is_alnum(#[trigger] s.skip(1)[k]) by {
            assert(s.skip(1)[k] == s[k + 1]);
        }
        lemma_trim_alnum_front(s.skip(1), i - 1);
    } else {
        assert(s.skip(0) =~= s);
    }
}

proof fn lemma_trim_alnum_back(s: Seq<char>, j: int)
    requires
        0 < j <= s.len(),
        is_alnum(s[0]),
        forall|k: int| j <= k < s.len() ==> !is_alnum(#[trigger] s[k]),
    ensures
        trim_non_alnum(s) == trim_non_alnum(s.take(j)),
    decreases s.len() - j,
{
    if j < s.len() {
        assert(s.drop_last().take(j) =~= s.take(j));
        assert forall|k: int| j <= k < s.drop_last().len() implies !is_alnum(#[trigger] s.drop_last()[k]) by {
            assert(s.drop_last()[k] == s[k]);
        }
        assert(!is_alnum(s[s.len() - 1]));
        lemma_trim_alnum_back(s.drop_last(), j);
    } else {
        assert(s.take(j) =~= s);
    }
}

proof fn lemma_trim_alnum_ends(w: Seq<char>)
    ensures
        trim_non_alnum(w).len() > 0 ==> is_alnum(trim_non_alnum(w)[0]) && is_alnum(trim_non_alnum(w).last()),
    decreases w.len(),
{
    if w.len() > 0 {
        if !is_alnum(w[0]) {
            lemma_trim_alnum_ends(w.skip(1));
        } else if !is_alnum(w.last()) {
            lemma_trim_alnum_ends(w.drop_last());
        }
    }
}

proof fn lemma_tokens_shape(ws: Seq<Seq<char>>)
    ensures
        forall|k: int| 0 <= k < tokens_of(ws).len() ==> {
            &&& keeps_token(#[trigger] tokens_of(ws)[k])
            &&& is_alnum(tokens_of(ws)[k][0])
            &&& is_alnum(tokens_of(ws)[k].last())
        },
    decreases ws.len(),
{
    if ws.len() > 0 {
        lemma_tokens_shape(ws.drop_last());
        let t = trim_non_alnum(ws.last());
        lemma_trim_alnum_ends(ws.last());
        if keeps_token(t) {
            assert(encode_utf8(t).len() > 0);
            if t.len() == 0 {
                assert(encode_utf8(t).len() == 0);
            }
            let r = tokens_of(ws.drop_last());
            assert forall|k: int| 0 <= k < r.push(t).len() implies {
                &&& keeps_token(#[trigger] r.push(t)[k])
                &&& is_alnum(r.push(t)[k][0])
                &&& is_alnum(r.push(t)[k].last())
            } by {
                if k < r.len() {
                    assert(r.push(t)[k] == r[k]);
                }
            }
        }
    }
}

/// Every search token is longer than two bytes and begins and ends with a
/// letter or digit.
pub proof fn law_token_shape(query: Seq<char>)
    ensures
        forall|k: int| 0 <= k < query_tokens(query).len() ==> {
            &&& keeps_token(#[trigger] query_tokens(query)[k])
            &&& is_alnum(query_tokens(query)[k][0])
            &&& is_alnum(query_tokens(query)[k].last())
        },
{
    lemma_tokens_shape(words(unicode_lowercase(query)));
}

/// A word without the characters at either end that are not letters or
/// digits (see `trim_non_alnum`).
fn trim_word(w: &Vec<char>) -> (r: Vec<char>)
    ensures
        r@ == trim_non_alnum(w@),
{
    let ghost b = w@;
    let mut start: usize = 0;
    while start < w.len() && !alphanumeric(w[start])
        invariant
            start <= w.len(),
            b == w@,
            forall|k: int| 0 <= k < start ==> !is_alnum(#[trigger] b[k]),
        decreases w.len() - start,
    {
        start = start + 1;
    }
    proof {
        lemma_trim_alnum_front(b, start as int);
    }
    let mut end: usize = w.len();
    while end > start && !alphanumeric(w[end - 1])
        invariant
            start <= end <= w.len(),
            b == w@,
            forall|k: int| end <= k < b.len() ==> !is_alnum(#[trigger] b[k]),
        decreases end - start,
    {
        end = end - 1;
    }
    let ghost rest = b.skip(start as int);
    proof {
        if end > start {
            assert(is_alnum(rest[0]));
            assert forall|k: int| end - start <= k < rest.len() implies !is_alnum(#[trigger] rest[k]) by {
                assert(rest[k] == b[start + k]);
            }
            lemma_trim_alnum_back(rest, end - start);
            assert(rest.take(end - start) =~= b.subrange(start as int, end as int));
            let m = b.subrange(start as int, end as int);
            assert(is_alnum(m[0]) && is_alnum(m.last()));
        } else {
            if rest.len() > 0 {
                assert forall|k: int| 0 <= k < rest.len() implies !is_alnum(#[trigger] rest[k]) by {
                    assert(rest[k] == b[start + k]);
                }
                lemma_trim_alnum_front(rest, rest.len() as int);
                assert(rest.skip(rest.len() as int) =~= Seq::<char>::empty());
            }
            assert(b.subrange(start as int, end as int) =~= Seq::<char>::empty());
        }
    }
    let mut out: Vec<char> = Vec::new();
    let mut k = start;
    while k < end
        invariant
            start <= k <= end,
            end <= w.len(),
            out@ == w@.subrange(start as int, k as int),
        decreases end - k,
    {
        out.push(w[k]);
        k = k + 1;
    }
    out
}

/// The words of `cs` (see `words`).
fn split_words(cs: &Vec<char>) -> (ws: Vec<Vec<char>>)
    ensures
        ws@.len() == words(cs@).len(),
        forall|k: int| 0 <= k < ws@.len() ==> (#[trigger] ws@[k])@ == words(cs@)[k],
{
    let mut done: Vec<Vec<char>> = Vec::new();
    let mut cur: Vec<char> = Vec::new();
    let mut in_word = false;
    let mut i: usize = 0;
    while i < cs.len()
        invariant
            i <= cs.len(),
            in_word <==> (i > 0 && !is_white_space(cs@[i - 1])),
            in_word ==> {
                &&& words(cs@.take(i as int)).len() == done@.len() + 1
                &&& words(cs@.take(i as int)).last() == cur@
            },
            !in_word ==> words(cs@.take(i as int)).len() == done@.len(),
            forall|k: int| 0 <= k < done@.len() ==> (#[trigger] done@[k])@ == words(cs@.take(i as int))[k],
        decreases cs.len() - i,
    {
        let ghost before = words(cs@.take(i as int));
        let ghost t = cs@.take(i + 1);
        assert(t.drop_last() =~= cs@.take(i as int));
        assert(t.last() == cs@[i as int]);
        let c = cs[i];
        if white_space(c) {
            if in_word {
                let finished = cur;
                cur = Vec::new();
                done.push(finished);
            }
            in_word = false;
            assert(words(t) == before);
        } else {
            if in_word {
                proof {
                    assert(t[t.len() - 2] == cs@[i - 1]);
                }
                cur.push(c);
            } else {
                cur = Vec::new();
                cur.push(c);
                proof {
                    if i > 0 {
                        assert(t[t.len() - 2] == cs@[i - 1]);
                    }
                    assert(cur@ =~= seq![c]);
                }
            }
            in_word = true;
        }
        i = i + 1;
    }
    assert(cs@.take(cs.len() as int) =~= cs@);
    if in_word {
        done.push(cur);
    }
    done
}

impl KnowledgeSearchService {
    /// The search tokens of a query (see `query_tokens`).
    pub fn tokenize_query(query: &str) -> (r: Vec<String>)
        ensures
            r@.len() == query_tokens(query@).len(),
            forall|k: int| 0 <= k < r@.len() ==> (#[trigger] r@[k])@ == query_tokens(query@)[k],
    {
        let lower = lowercase(query);
        let cs = chars_of(lower.as_str());
        let ws = split_words(&cs);
        let ghost all = words(cs@);
        let mut out: Vec<String> = Vec::new();
        let mut i: usize = 0;
        while i < ws.len()
            invariant
                i <= ws.len(),
                ws@.len() == all.len(),
                forall|k: int| 0 <= k < ws@.len() ==> (#[trigger] ws@[k])@ == all[k],
                out@.len() == tokens_of(all.take(i as int)).len(),
                forall|k: int| 0 <= k < out@.len() ==> (#[trigger] out@[k])@ == tokens_of(all.take(i as int))[k],
            decreases ws.len() - i,
        {
            assert(all.take(i + 1).drop_last() =~= all.take(i as int));
            assert(all.take(i + 1).last() == all[i as int]);
            let t = trim_word(&ws[i]);
            let token = string_of(&t);
            if token.as_str().as_bytes().len() > 2 {
                out.push(token);
            }
            i = i + 1;
        }
        assert(all.take(ws@.len() as int) =~= all);
        out
    }
}

/// Article operations.
pub struct ArticleService;

/// Version history of articles.
pub struct ArticleVersionService;

/// Reader feedback on articles.
pub struct ArticleFeedbackService;

/// Search over the knowledge base.
pub struct KnowledgeSearchService;

/// Article categories.
pub struct KnowledgeCategoryService;

/// Review workflows of articles.
pub struct ArticleWorkflowService;

/// Translations of articles.
pub struct ArticleTranslationService;

/// Article templates.
pub struct KnowledgeTemplateService;

/// A reader's feedback on an article.
#[derive(Debug, Clone)]
pub struct ArticleFeedback {
    pub id: u128,
    pub article_id: u128,
    pub user_id: u128,
    pub is_helpful: bool,
    pub rating: Option<i32>,
    pub comment: Option<String>,
    pub submitted_at_ms: i64,
}

/// One saved version of an article.
#[derive(Debug, Clone)]
pub struct ArticleVersion {
    pub id: u128,
    pub article_id: u128,
    pub version: i32,
    pub title: String,
    pub content: String,
    pub change_summary: Option<String>,
    pub author_id: u128,
    pub created_at_ms: i64,
    pub is_current: bool,
}

/// A category of the knowledge base.
#[derive(Debug, Clone)]
pub struct KnowledgeCategoryEntity {
    pub id: u128,
    pub name: String,
    pub slug: String,
    pub description: Option<String>,
    pub parent_id: Option<u128>,
    pub icon: Option<String>,
    pub sort_order: i32,
    pub article_count: i32,
    pub is_active: bool,
}

/// A workflow an article goes through.
#[derive(Debug, Clone)]
pub struct ArticleWorkflow {
    pub id: u128,
    pub article_id: u128,
    pub workflow_type: WorkflowType,
    pub status: WorkflowStatus,
    pub initiated_by: u128,
    pub current_step: i32,
    pub total_steps: i32,
    pub assigned_to: Option<u128>,
    pub due_date_ms: Option<i64>,
    pub completed_at_ms: Option<i64>,
}

/// A translation of an article.
#[derive(Debug, Clone)]
pub struct ArticleTranslation {
    pub id: u128,
    pub article_id: u128,
    pub language: String,
    pub title: String,
    pub content: String,
    pub summary: Option<String>,
    pub translated_by: Option<u128>,
    pub translated_at_ms: Option<i64>,
    pub status: TranslationStatus,
    pub needs_update: bool,
}

/// A template new articles start from.
#[derive(Debug, Clone)]
pub struct KnowledgeTemplate {
    pub id: u128,
    pub name: String,
    pub description: Option<String>,
    pub category: KnowledgeCategory,
    pub template_content: String,
    pub placeholders: Vec<TemplatePlaceholder>,
    pub created_by: u128,
    pub is_active: bool,
}

/// Milliseconds allowed to examine an article before its workflow is due: seven days.
pub const REVIEW_PERIOD_MS: i64 = 604800000;

/// The status an article gets when it is published from `status`: only a
/// draft or an article pending review can be.
pub open spec fn publish_outcome(status: ArticleStatus) -> Result<ArticleStatus, KnowledgeError> {
    if status == ArticleStatus::Draft || status == ArticleStatus::PendingReview {
        Ok(ArticleStatus::Published)
    } else {
        Err(KnowledgeError::NotPublishable)
    }
}

impl ArticleService {
    /// Publishing an article in state `status` (see `publish_outcome`).
    pub fn publish_article(status: ArticleStatus) -> (r: Result<ArticleStatus, KnowledgeError>)
        ensures
            r == publish_outcome(status),
    {
        if status != ArticleStatus::Draft && status != ArticleStatus::PendingReview {
            return Err(KnowledgeError::NotPublishable);
        }
        Ok(ArticleStatus::Published)
    }
}

impl ArticleVersionService {
    /// A new current version of an article.
    pub fn create_version(
        &self,
        article_id: u128,
        version: i32,
        title: String,
        content: String,
        change_summary: Option<String>,
        author_id: u128,
    ) -> (v: ArticleVersion)
        ensures
            v.article_id == article_id,
            v.version == version,
            v.title == title,
            v.content == content,
            v.change_summary == change_summary,
            v.author_id == author_id,
            v.is_current,
    {
        ArticleVersion {
            id: new_id(),
            article_id,
            version,
            title,
            content,
            change_summary,
            author_id,
            created_at_ms: now_millis(),
            is_current: true,
        }
    }
}

impl ArticleFeedbackService {
    /// A reader's feedback, refused when a rating outside one to five is
    /// given.
    pub fn submit_feedback(
        &self,
        article_id: u128,
        user_id: u128,
        is_helpful: bool,
        rating: Option<i32>,
        comment: Option<String>,
    ) -> (r: Result<ArticleFeedback, KnowledgeError>)
        ensures
            r is Ok <==> (rating matches Some(x) ==> 1 <= x <= 5),
            r matches Err(e) ==> e == KnowledgeError::RatingOutOfRange,
            r matches Ok(f) ==> {
                &&& f.article_id == article_id
                &&& f.user_id == user_id
                &&& f.is_helpful == is_helpful
                &&& f.rating == rating
                &&& f.comment == comment
            },
    {
        match validate_rating(rating) {
            Err(e) => Err(e),
            Ok(()) => Ok(ArticleFeedback {
                id: new_id(),
                article_id,
                user_id,
                is_helpful,
                rating,
                comment,
                submitted_at_ms: now_millis(),
            }),
        }
    }
}

impl KnowledgeCategoryService {
    /// A new active category, first in order, with no articles; its slug is
    /// made from its name (see `category_slug_of`).
    pub fn create_category(
        &self,
        name: String,
        description: Option<String>,
        parent_id: Option<u128>,
        icon: Option<String>,
    ) -> (c: KnowledgeCategoryEntity)
        ensures
            c.name == name,
            c.slug@ == category_slug_of(name@),
            c.description == description,
            c.parent_id == parent_id,
            c.icon == icon,
            c.sort_order == 0,
            c.article_count == 0,
            c.is_active,
    {
        let slug = category_slug(name.as_str());
        KnowledgeCategoryEntity {
            id: new_id(),
            name,
            slug,
            description,
            parent_id,
            icon,
            sort_order: 0,
            article_count: 0,
            is_active: true,
        }
    }
}

impl ArticleWorkflowService {
    /// A pending two-step review, at its first step, assigned to
    /// `assigned_to` and due seven days after it starts.
    pub fn initiate_review(&self, article_id: u128, initiated_by: u128, assigned_to: u128) -> (w: ArticleWorkflow)
        ensures
            w.article_id == article_id,
            w.workflow_type == WorkflowType::Review,
            w.status == WorkflowStatus::Pending,
            w.initiated_by == initiated_by,
            w.current_step == 1,
            w.total_steps == 2,
            w.assigned_to == Some(assigned_to),
            w.due_date_ms matches Some(due) && in_time_range(due - REVIEW_PERIOD_MS),
            w.completed_at_ms is None,
    {
        let now = now_millis();
        ArticleWorkflow {
            id: new_id(),
            article_id,
            workflow_type: WorkflowType::Review,
            status: WorkflowStatus::Pending,
            initiated_by,
            current_step: 1,
            total_steps: 2,
            assigned_to: Some(assigned_to),
            due_date_ms: Some(now + REVIEW_PERIOD_MS),
            completed_at_ms: None,
        }
    }

    /// An approved review: completed at its second and last step, now.
    pub fn approve_review(&self, _workflow_id: u128) -> (w: ArticleWorkflow)
        ensures
            w.article_id == 0,
            w.workflow_type == WorkflowType::Review,
            w.status == WorkflowStatus::Completed,
            w.initiated_by == 0,
            w.current_step == 2,
            w.total_steps == 2,
            w.assigned_to is None,
            w.due_date_ms is None,
            w.completed_at_ms is Some,
    {
        ArticleWorkflow {
            id: new_id(),
            article_id: 0,
            workflow_type: WorkflowType::Review,
            status: WorkflowStatus::Completed,
            initiated_by: 0,
            current_step: 2,
            total_steps: 2,
            assigned_to: None,
            due_date_ms: None,
            completed_at_ms: Some(now_millis()),
        }
    }

    /// A rejected review: back at its first step, not completed.
    pub fn reject_review(&self, _workflow_id: u128, _reason: String) -> (w: ArticleWorkflow)
        ensures
            w.article_id == 0,
            w.workflow_type == WorkflowType::Review,
            w.status == WorkflowStatus::Rejected,
            w.initiated_by == 0,
            w.current_step == 1,
            w.total_steps == 2,
            w.assigned_to is None,
            w.due_date_ms is None,
            w.completed_at_ms is None,
    {
        ArticleWorkflow {
            id: new_id(),
            article_id: 0,
            workflow_type: WorkflowType::Review,
            status: WorkflowStatus::Rejected,
            initiated_by: 0,
            current_step: 1,
            total_steps: 2,
            assigned_to: None,
            due_date_ms: None,
            completed_at_ms: None,
        }
    }
}

impl ArticleTranslationService {
    /// A pending translation of an article into `language`, still empty.
    pub fn request_translation(&self, article_id: u128, language: String) -> (t: ArticleTranslation)
        ensures
            t.article_id == article_id,
            t.language == language,
            t.title@.len() == 0,
            t.content@.len() == 0,
            t.summary is None,
            t.translated_by is None,
            t.translated_at_ms is None,
            t.status == TranslationStatus::Pending,
            !t.needs_update,
    {
        ArticleTranslation {
            id: new_id(),
            article_id,
            language,
            title: String::new(),
            content: String::new(),
            summary: None,
            translated_by: None,
            translated_at_ms: None,
            status: TranslationStatus::Pending,
            needs_update: false,
        }
    }

    /// A completed translation with its text, translated now by
    /// `translated_by`.
    pub fn complete_translation(
        &self,
        _translation_id: u128,
        title: String,
        content: String,
        translated_by: u128,
    ) -> (t: ArticleTranslation)
        ensures
            t.article_id == 0,
            t.language@.len() == 0,
            t.title == title,
            t.content == content,
            t.summary is None,
            t.translated_by == Some(translated_by),
            t.translated_at_ms is Some,
            t.status == TranslationStatus::Completed,
            !t.needs_update,
    {
        ArticleTranslation {
            id: new_id(),
            article_id: 0,
            language: String::new(),
            title,
            content,
            summary: None,
            translated_by: Some(translated_by),
            translated_at_ms: Some(now_millis()),
            status: TranslationStatus::Completed,
            needs_update: false,
        }
    }
}

impl KnowledgeTemplateService {
    /// A new active template without description.
    pub fn create_template(
        &self,
        name: String,
        category: KnowledgeCategory,
        template_content: String,
        placeholders: Vec<TemplatePlaceholder>,
        created_by: u128,
    ) -> (t: KnowledgeTemplate)
        ensures
            t.name == name,
            t.description is None,
            t.category == category,
            t.template_content == template_content,
            t.placeholders@ == placeholders@,
            t.created_by == created_by,
            t.is_active,
    {
        KnowledgeTemplate {
            id: new_id(),
            name,
            description: None,
            category,
            template_content,
            placeholders,
            created_by,
            is_active: true,
        }
    }

    /// The template's content with every placeholder filled: by the first
    /// value of that name, else the placeholder's default, else nothing
    /// (see `applied`).
    pub fn apply_template(template: &KnowledgeTemplate, values: &Vec<TemplateVariable>) -> (r: String)
        ensures
            r@ == applied(template.template_content@, template.placeholders@, values@),
    {
        fill_placeholders(template.template_content.as_str(), &template.placeholders, values)
    }
}

} // verus!
