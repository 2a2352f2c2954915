//! Offers: their status, the page query with its search, and the decoding of
//! offer rows.

use vstd::prelude::*;

use crate::convert::{be_value, Convert};
use crate::database::assets::{asset_kind_of, Asset, AssetColumns, AssetKind};
use crate::database::coins::length_error;
use crate::database::options::opt_string_view;
use crate::database::sql::{
    contains_text, lemma_occurs_extended, occurs_at,
    decode_rows, first_row_error, new_query, page_total, push_bind_blob, push_bind_i64,
    push_bind_text, push_bind_u32, push_bind_u8, push_sql, query_binds, query_sql, RowColumns,
    SqlQuery, SqlValue,
};
use crate::error::DatabaseError;

verus! {

/// The state of an offer; stored as 0 to 4 in the order of the variants.
#[derive(Debug, Clone, Copy, PartialEq, Eq, Structural, PartialOrd, Ord, Hash)]
pub enum OfferStatus {
    Pending,
    Active,
    Completed,
    Cancelled,
    Expired,
}

/// The stored number of an offer status.
pub open spec fn offer_status_index(status: OfferStatus) -> u8 {
    match status {
        OfferStatus::Pending => 0,
        OfferStatus::Active => 1,
        OfferStatus::Completed => 2,
        OfferStatus::Cancelled => 3,
        OfferStatus::Expired => 4,
    }
}

impl OfferStatus {
    /// The number an offer status is stored as.
    pub fn index(self) -> (r: u8)
        ensures
            r == offer_status_index(self),
    {
        match self {
            OfferStatus::Pending => 0,
            OfferStatus::Active => 1,
            OfferStatus::Completed => 2,
            OfferStatus::Cancelled => 3,
            OfferStatus::Expired => 4,
        }
    }
}

/// The status stored as `value`, if it names one.
pub open spec fn offer_status_of(value: int) -> Option<OfferStatus> {
    if value == 0 {
        Some(OfferStatus::Pending)
    } else if value == 1 {
        Some(OfferStatus::Active)
    } else if value == 2 {
        Some(OfferStatus::Completed)
    } else if value == 3 {
        Some(OfferStatus::Cancelled)
    } else if value == 4 {
        Some(OfferStatus::Expired)
    } else {
        None
    }
}

/// Reads a stored offer status; any other number is no variant.
pub fn offer_status(value: i64) -> (r: Result<OfferStatus, DatabaseError>)
    ensures
        match offer_status_of(value as int) {
            Some(s) => r == Ok::<OfferStatus, DatabaseError>(s),
            None => r matches Err(DatabaseError::InvalidEnumVariant),
        },
{
    match value {
        0 => Ok(OfferStatus::Pending),
        1 => Ok(OfferStatus::Active),
        2 => Ok(OfferStatus::Completed),
        3 => Ok(OfferStatus::Cancelled),
        4 => Ok(OfferStatus::Expired),
        _ => Err(DatabaseError::InvalidEnumVariant),
    }
}

/// Reading a stored status gives back the status that was stored.
pub proof fn lemma_offer_status_round_trip(status: OfferStatus)
    ensures
        offer_status_of(offer_status_index(status) as int) == Some(status),
{
}

/// Which side of an offer a search looks at.
#[derive(Debug, Clone, Copy, PartialEq, Eq, Structural)]
pub enum OfferSearchSide {
    Any,
    Offered,
    Requested,
}

impl Default for OfferSearchSide {
    fn default() -> (r: Self)
        ensures
            r == OfferSearchSide::Any,
    {
        OfferSearchSide::Any
    }
}

/// What offers are ordered by.
#[derive(Debug, Clone, Copy, PartialEq, Eq, Structural)]
pub enum OfferSortColumn {
    Created,
    Expiration,
}

impl Default for OfferSortColumn {
    fn default() -> (r: Self)
        ensures
            r == OfferSortColumn::Created,
    {
        OfferSortColumn::Created
    }
}

/// What a page of offers asks for.
#[derive(Debug, Clone)]
pub struct OffersPageParams {
    pub status: Option<OfferStatus>,
    pub find_text: Option<String>,
    pub find_id: Option<[u8; 32]>,
    pub side: OfferSearchSide,
    pub sort: OfferSortColumn,
    pub ascending: bool,
    pub limit: Option<u32>,
    pub offset: u32,
}

impl Default for OffersPageParams {
    /// Every offer, newest first, unpaged.
    fn default() -> (r: Self)
        ensures
            r.status is None,
            r.find_text is None,
            r.find_id is None,
            r.side == OfferSearchSide::Any,
            r.sort == OfferSortColumn::Created,
            !r.ascending,
            r.limit is None,
            r.offset == 0,
    {
        OffersPageParams {
            status: None,
            find_text: None,
            find_id: None,
            side: OfferSearchSide::Any,
            sort: OfferSortColumn::Created,
            ascending: false,
            limit: None,
            offset: 0,
        }
    }
}

/// A stored offer.
#[derive(Debug, Clone)]
pub struct OfferRow {
    pub offer_id: [u8; 32],
    pub encoded_offer: String,
    pub expiration_height: Option<u32>,
    pub expiration_timestamp: Option<u64>,
    pub fee: u64,
    pub status: OfferStatus,
    pub inserted_timestamp: u64,
}

/// `c` has Unicode's White_Space property, as `char::is_whitespace` says.
pub uninterp spec fn is_white_space(c: char) -> bool;

/// `char::is_whitespace`.
#[verifier::external_body]
fn char_is_whitespace(c: char) -> (r: bool)
    ensures
        r == is_white_space(c),
{
    c.is_whitespace()
}

/// `String::push`: appends one character.
#[verifier::external_body]
fn push_char(s: &mut String, c: char)
    ensures
        final(s)@ == old(s)@.push(c),
{
    s.push(c);
}

/// The number of leading white space characters of `s`.
pub open spec fn leading_space(s: Seq<char>) -> nat
    decreases s.len(),
{
    if s.len() > 0 && is_white_space(s[0]) {
        1 + leading_space(s.drop_first())
    } else {
        0
    }
}

/// The number of trailing white space characters of `s`.
pub open spec fn trailing_space(s: Seq<char>) -> nat
    decreases s.len(),
{
    if s.len() > 0 && is_white_space(s.last()) {
        1 + trailing_space(s.drop_last())
    } else {
        0
    }
}

/// `s` without its leading and trailing white space, as `str::trim` gives it.
pub open spec fn trimmed(s: Seq<char>) -> Seq<char> {
    let start = leading_space(s);
    if start == s.len() {
        Seq::empty()
    } else {
        s.subrange(start as int, s.len() - trailing_space(s))
    }
}

/// The text that a search looks for: the given text trimmed, where that
/// leaves something.
pub open spec fn search_text(find_text: Option<Seq<char>>) -> Option<Seq<char>> {
    match find_text {
        Some(t) if trimmed(t).len() > 0 => Some(trimmed(t)),
        _ => None,
    }
}

/// `s` escaped for `LIKE ... ESCAPE '\'`: a backslash before every backslash,
/// `%` and `_`, so that each stands for itself.
pub open spec fn escaped_like(s: Seq<char>) -> Seq<char>
    decreases s.len(),
{
    if s.len() == 0 {
        Seq::empty()
    } else {
        let c = s.last();
        escaped_like(s.drop_last()) + if c == '\\' || c == '%' || c == '_' {
            seq!['\\', c]
        } else {
            seq![c]
        }
    }
}

/// What `LIKE ... ESCAPE '\'` reads a pattern as: a backslash makes the next
/// character stand for itself. `None` for a pattern that ends in a lone
/// backslash.
pub open spec fn like_literal(p: Seq<char>) -> Option<Seq<char>>
    decreases p.len(),
{
    if p.len() == 0 {
        Some(Seq::empty())
    } else if p[0] == '\\' {
        if p.len() < 2 {
            None
        } else {
            match like_literal(p.subrange(2, p.len() as int)) {
                Some(rest) => Some(seq![p[1]] + rest),
                None => None,
            }
        }
    } else {
        match like_literal(p.drop_first()) {
            Some(rest) => Some(seq![p[0]] + rest),
            None => None,
        }
    }
}

/// Reading an escaped pattern the way `LIKE ... ESCAPE '\'` reads it gives the
/// text back: escaped search text matches itself, wildcards included.
pub proof fn lemma_escaped_like_reads_back(s: Seq<char>)
    ensures
        like_literal(escaped_like(s)) == Some(s),
    decreases s.len(),
{
    if s.len() > 0 {
        let first = s[0];
        let rest = s.drop_first();
        lemma_escaped_like_first(s);
        lemma_escaped_like_reads_back(rest);
        let e = escaped_like(s);
        if first == '\\' || first == '%' || first == '_' {
            assert(e[0] == '\\');
            assert(e.subrange(2, e.len() as int) =~= escaped_like(rest));
        } else {
            assert(e.drop_first() =~= escaped_like(rest));
        }
        assert(seq![first] + rest =~= s);
    }
}

/// Escaping a text is escaping its first character, then the rest.
proof fn lemma_escaped_like_first(s: Seq<char>)
    requires
        s.len() > 0,
    ensures
        escaped_like(s) == (if s[0] == '\\' || s[0] == '%' || s[0] == '_' {
            seq!['\\', s[0]]
        } else {
            seq![s[0]]
        }) + escaped_like(s.drop_first()),
    decreases s.len(),
{
    if s.len() == 1 {
        assert(s.drop_last() =~= Seq::<char>::empty());
        assert(s.drop_first() =~= Seq::<char>::empty());
        assert(escaped_like(Seq::<char>::empty()) =~= Seq::<char>::empty());
    } else {
        lemma_escaped_like_first(s.drop_last());
        assert(s.drop_last().drop_first() =~= s.drop_first().drop_last());
        assert(s.drop_first().last() == s.last());
    }
}

/// Escapes `value` for `LIKE ... ESCAPE '\'`: a backslash before every
/// backslash, `%` and `_`.
pub fn escape_like(value: &str) -> (r: String)
    ensures
        r@ == escaped_like(value@),
{
    let mut out = String::new();
    let mut i: usize = 0;
    let chars = crate::database::validation::chars_of(value);
    while i < chars.len()
        invariant
            i <= chars@.len(),
            chars@ == value@,
            out@ == escaped_like(chars@.take(i as int)),
        decreases chars@.len() - i,
    {
        let c = chars[i];
        proof {
            assert(chars@.take(i as int + 1).drop_last() =~= chars@.take(i as int));
        }
        if c == '\\' || c == '%' || c == '_' {
            push_char(&mut out, '\\');
        }
        push_char(&mut out, c);
        proof {
            let t = chars@.take(i as int + 1);
            assert(t.last() == c);
            if c == '\\' || c == '%' || c == '_' {
                assert(out@ =~= escaped_like(t.drop_last()) + seq!['\\', c]);
            } else {
                assert(out@ =~= escaped_like(t.drop_last()) + seq![c]);
            }
        }
        i = i + 1;
    }
    proof {
        assert(chars@.take(i as int) =~= value@);
    }
    out
}

/// `value` without its leading and trailing white space.
pub fn trim(value: &str) -> (r: String)
    ensures
        r@ == trimmed(value@),
{
    let chars = crate::database::validation::chars_of(value);
    let ghost s = value@;
    let mut start: usize = 0;
    proof {
        assert(s.subrange(0, s.len() as int) =~= s);
    }
    while start < chars.len() && char_is_whitespace(chars[start])
        invariant
            start <= chars@.len(),
            chars@ == s,
            leading_space(s) == start + leading_space(s.subrange(start as int, s.len() as int)),
        decreases chars@.len() - start,
    {
        proof {
            let rest = s.subrange(start as int, s.len() as int);
            assert(rest.drop_first() =~= s.subrange(start + 1, s.len() as int));
        }
        start = start + 1;
    }
    proof {
        let rest = s.subrange(start as int, s.len() as int);
        if start < s.len() {
            assert(rest[0] == s[start as int]);
        }
    }
    let mut out = String::new();
    if start == chars.len() {
        proof {
            assert(leading_space(s) == s.len());
        }
        return out;
    }
    let mut end: usize = chars.len();
    proof {
        assert(s.take(s.len() as int) =~= s);
    }
    while end > start && char_is_whitespace(chars[end - 1])
        invariant
            start < chars@.len(),
            start < end <= chars@.len(),
            chars@ == s,
            !is_white_space(s[start as int]),
            trailing_space(s) == (s.len() - end) + trailing_space(s.take(end as int)),
        decreases end,
    {
        proof {
            let head = s.take(end as int);
            assert(head.drop_last() =~= s.take(end - 1));
            assert(head.last() == s[end - 1]);
        }
        end = end - 1;
    }
    proof {
        let head = s.take(end as int);
        if end > start {
            assert(head.last() == s[end - 1]);
        }
    }
    let mut i: usize = start;
    while i < end
        invariant
            start <= i <= end <= chars@.len(),
            chars@ == s,
            out@ == s.subrange(start as int, i as int),
        decreases end - i,
    {
        push_char(&mut out, chars[i]);
        proof {
            assert(out@ =~= s.subrange(start as int, i + 1));
        }
        i = i + 1;
    }
    proof {
        assert(leading_space(s) == start);
        assert(trailing_space(s) == s.len() - end);
    }
    out
}

/// The statement that pages through offers, before its filters and order.
pub const OFFERS_PAGE_SELECT: &'static str = "SELECT
            hash AS offer_id, encoded_offer, fee, status, expiration_height,
            expiration_timestamp, inserted_timestamp, COUNT(*) OVER() AS total_count
        FROM offers
        WHERE 1=1";

/// The filter that finds offers through their assets, before the side and
/// the asset conditions.
pub const OFFER_ASSET_MATCH: &'static str = "offers.id IN (
                SELECT oa.offer_id FROM offer_assets oa
                INNER JOIN assets a ON a.id = oa.asset_id
                WHERE ";

/// The order by expiration, before its direction: offers that never expire
/// last.
pub const OFFER_EXPIRATION_ORDER: &'static str = " ORDER BY expiration_timestamp IS NULL, expiration_timestamp ";

/// The tie breakers of the order by expiration: newest first.
pub const OFFER_EXPIRATION_TIES: &'static str = ",
                  inserted_timestamp DESC, offers.id DESC";

/// `sql` followed by the search filter: the offer id or an asset with that
/// hash, and assets whose name or ticker contain the search text, on the side
/// asked for.
pub open spec fn offers_search_sql(sql: Seq<char>, params: OffersPageParams) -> Seq<char> {
    let text = search_text(opt_string_view(params.find_text));
    if text is Some || params.find_id is Some {
        let open = sql + " AND ("@;
        let by_offer = match params.find_id {
            Some(_) => open + "offers.hash = "@ + "?"@ + " OR "@,
            None => open,
        };
        let assets = by_offer + OFFER_ASSET_MATCH@;
        let sided = match params.side {
            OfferSearchSide::Any => assets,
            OfferSearchSide::Offered => assets + "oa.is_requested = 0 AND "@,
            OfferSearchSide::Requested => assets + "oa.is_requested = 1 AND "@,
        };
        let start = sided + "(0"@;
        let by_text = match text {
            Some(_) => start + " OR a.name LIKE "@ + "?"@ + " ESCAPE '\\' OR a.ticker LIKE "@ + "?"@
                + " ESCAPE '\\'"@,
            None => start,
        };
        let by_hash = match params.find_id {
            Some(_) => by_text + " OR a.hash = "@ + "?"@,
            None => by_text,
        };
        by_hash + ")))"@
    } else {
        sql
    }
}

/// The statement of a page of offers.
pub open spec fn offers_page_sql(params: OffersPageParams) -> Seq<char> {
    let with_status = match params.status {
        Some(_) => OFFERS_PAGE_SELECT@ + " AND status = "@ + "?"@,
        None => OFFERS_PAGE_SELECT@,
    };
    let searched = offers_search_sql(with_status, params);
    let direction = if params.ascending {
        "ASC"@
    } else {
        "DESC"@
    };
    let ordered = match params.sort {
        OfferSortColumn::Created => searched + " ORDER BY inserted_timestamp "@ + direction + ", offers.id "@
            + direction,
        OfferSortColumn::Expiration => searched + OFFER_EXPIRATION_ORDER@ + direction + OFFER_EXPIRATION_TIES@,
    };
    if params.limit is Some || params.offset > 0 {
        ordered + " LIMIT "@ + "?"@ + " OFFSET "@ + "?"@
    } else {
        ordered
    }
}

/// How a page of offers is ordered. By expiration, the statement orders
/// first by whether the offer has no expiration, ascending, so in either
/// direction every offer that expires comes before every offer that never
/// does; then by the expiration in the asked direction, and ties newest
/// first. By creation, it
/// orders by the insertion time, then the offer's row, both in the asked
/// direction.
pub proof fn lemma_offers_page_order(params: OffersPageParams)
    ensures
        params.sort is Expiration ==> contains_text(
            offers_page_sql(params),
            if params.ascending {
                "ORDER BY expiration_timestamp IS NULL, expiration_timestamp ASC,\n                  inserted_timestamp DESC, offers.id DESC"@
            } else {
                "ORDER BY expiration_timestamp IS NULL, expiration_timestamp DESC,\n                  inserted_timestamp DESC, offers.id DESC"@
            },
        ),
        params.sort is Created ==> contains_text(
            offers_page_sql(params),
            if params.ascending {
                "ORDER BY inserted_timestamp ASC, offers.id ASC"@
            } else {
                "ORDER BY inserted_timestamp DESC, offers.id DESC"@
            },
        ),
{
    reveal_strlit(" ORDER BY expiration_timestamp IS NULL, expiration_timestamp ");
    reveal_strlit(",\n                  inserted_timestamp DESC, offers.id DESC");
    reveal_strlit(" ORDER BY inserted_timestamp ");
    reveal_strlit(", offers.id ");
    reveal_strlit("ASC");
    reveal_strlit("DESC");
    reveal_strlit("ORDER BY expiration_timestamp IS NULL, expiration_timestamp ASC,\n                  inserted_timestamp DESC, offers.id DESC");
    reveal_strlit("ORDER BY expiration_timestamp IS NULL, expiration_timestamp DESC,\n                  inserted_timestamp DESC, offers.id DESC");
    reveal_strlit("ORDER BY inserted_timestamp ASC, offers.id ASC");
    reveal_strlit("ORDER BY inserted_timestamp DESC, offers.id DESC");
    let with_status = match params.status {
        Some(_) => OFFERS_PAGE_SELECT@ + " AND status = "@ + "?"@,
        None => OFFERS_PAGE_SELECT@,
    };
    let searched = offers_search_sql(with_status, params);
    let sql = offers_page_sql(params);
    let at = searched.len() as int + 1;
    let part = match params.sort {
        OfferSortColumn::Expiration => if params.ascending {
            "ORDER BY expiration_timestamp IS NULL, expiration_timestamp ASC,\n                  inserted_timestamp DESC, offers.id DESC"@
        } else {
            "ORDER BY expiration_timestamp IS NULL, expiration_timestamp DESC,\n                  inserted_timestamp DESC, offers.id DESC"@
        },
        OfferSortColumn::Created => if params.ascending {
            "ORDER BY inserted_timestamp ASC, offers.id ASC"@
        } else {
            "ORDER BY inserted_timestamp DESC, offers.id DESC"@
        },
    };
    assert(sql.subrange(at, at + part.len() as int) =~= part);
    assert(occurs_at(sql, part, at));
}

/// The search filter of a page of offers only adds to the statement before it.
proof fn lemma_offers_search_extends(sql: Seq<char>, params: OffersPageParams)
    ensures
        offers_search_sql(sql, params) =~= sql + offers_search_sql(sql, params).subrange(
            sql.len() as int,
            offers_search_sql(sql, params).len() as int,
        ),
{
}

/// A page of offers asked for one status keeps only offers of that status:
/// the statement compares the status column with a bound value.
pub proof fn lemma_offers_page_status(params: OffersPageParams)
    requires
        params.status is Some,
    ensures
        contains_text(offers_page_sql(params), "AND status = ?"@),
{
    reveal_strlit(" AND status = ");
    reveal_strlit("?");
    reveal_strlit("AND status = ?");
    let with_status = OFFERS_PAGE_SELECT@ + " AND status = "@ + "?"@;
    let at = OFFERS_PAGE_SELECT@.len() as int + 1;
    let part = "AND status = ?"@;
    assert(with_status.subrange(at, at + part.len() as int) =~= part);
    assert(occurs_at(with_status, part, at));
    let searched = offers_search_sql(with_status, params);
    lemma_offers_search_extends(with_status, params);
    lemma_occurs_extended(with_status, searched.subrange(with_status.len() as int, searched.len() as int), part, at);
    assert(occurs_at(searched, part, at));
    let sql = offers_page_sql(params);
    assert(sql =~= searched + sql.subrange(searched.len() as int, sql.len() as int));
    lemma_occurs_extended(searched, sql.subrange(searched.len() as int, sql.len() as int), part, at);
    assert(occurs_at(sql, part, at));
}

/// The arguments of a page of offers: the status, the offer id, the escaped
/// search pattern twice, the asset hash, and the limit (-1 for none) and
/// offset where the page is bounded.
pub open spec fn offers_page_binds(params: OffersPageParams) -> Seq<SqlValue> {
    let text = search_text(opt_string_view(params.find_text));
    let with_status = match params.status {
        Some(s) => seq![SqlValue::Integer(offer_status_index(s) as int)],
        None => Seq::empty(),
    };
    let searched = if text is Some || params.find_id is Some {
        let by_offer = match params.find_id {
            Some(id) => with_status.push(SqlValue::Blob(id@)),
            None => with_status,
        };
        let by_text = match text {
            Some(t) => {
                let p = SqlValue::Text("%"@ + escaped_like(t) + "%"@);
                by_offer.push(p).push(p)
            },
            None => by_offer,
        };
        match params.find_id {
            Some(id) => by_text.push(SqlValue::Blob(id@)),
            None => by_text,
        }
    } else {
        with_status
    };
    if params.limit is Some || params.offset > 0 {
        let limit: int = match params.limit {
            Some(l) => l as int,
            None => -1,
        };
        searched.push(SqlValue::Integer(limit)).push(SqlValue::Integer(params.offset as int))
    } else {
        searched
    }
}

/// The search text of the page parameters: the given text trimmed, unless
/// that leaves nothing.
pub fn find_text_of(find_text: &Option<String>) -> (r: Option<String>)
    ensures
        opt_string_view(r) == search_text(opt_string_view(*find_text)),
{
    match find_text {
        Some(t) => {
            let trimmed_text = trim(t.as_str());
            if trimmed_text.as_str().is_empty() {
                None
            } else {
                Some(trimmed_text)
            }
        },
        None => None,
    }
}

/// The statement of a page of offers: those with the status asked for; those
/// whose id is `find_id`, or that have an asset on the side asked for whose
/// hash is `find_id` or whose name or ticker contains the trimmed search text
/// (with `%`, `_` and `\` standing for themselves); newest or soonest
/// expiring first, or last; bounded where a limit or an offset is given.
pub fn offers_page_query(params: &OffersPageParams) -> (query: SqlQuery)
    ensures
        query_sql(query) == offers_page_sql(*params),
        query_binds(query) == offers_page_binds(*params),
{
    let mut query = new_query(OFFERS_PAGE_SELECT);
    if let Some(status) = params.status {
        push_sql(&mut query, " AND status = ");
        push_bind_u8(&mut query, status.index());
    }
    let find_text = find_text_of(&params.find_text);
    let ghost after_status = query_binds(query);
    if find_text.is_some() || params.find_id.is_some() {
        push_sql(&mut query, " AND (");
        if let Some(find_id) = params.find_id {
            push_sql(&mut query, "offers.hash = ");
            push_bind_blob(&mut query, vstd::slice::slice_to_vec(find_id.as_slice()));
            push_sql(&mut query, " OR ");
        }
        push_sql(&mut query, OFFER_ASSET_MATCH);
        match params.side {
            OfferSearchSide::Any => {},
            OfferSearchSide::Offered => {
                push_sql(&mut query, "oa.is_requested = 0 AND ");
            },
            OfferSearchSide::Requested => {
                push_sql(&mut query, "oa.is_requested = 1 AND ");
            },
        }
        push_sql(&mut query, "(0");
        if let Some(text) = &find_text {
            let escaped = escape_like(text.as_str());
            let pattern = crate::database::sql::like_pattern(escaped.as_str());
            push_sql(&mut query, " OR a.name LIKE ");
            push_bind_text(&mut query, pattern.clone());
            push_sql(&mut query, " ESCAPE '\\' OR a.ticker LIKE ");
            push_bind_text(&mut query, pattern);
            push_sql(&mut query, " ESCAPE '\\'");
        }
        if let Some(find_id) = params.find_id {
            push_sql(&mut query, " OR a.hash = ");
            push_bind_blob(&mut query, vstd::slice::slice_to_vec(find_id.as_slice()));
        }
        push_sql(&mut query, ")))");
    }
    let direction = if params.ascending {
        "ASC"
    } else {
        "DESC"
    };
    match params.sort {
        OfferSortColumn::Created => {
            push_sql(&mut query, " ORDER BY inserted_timestamp ");
            push_sql(&mut query, direction);
            push_sql(&mut query, ", offers.id ");
            push_sql(&mut query, direction);
        },
        OfferSortColumn::Expiration => {
            push_sql(&mut query, OFFER_EXPIRATION_ORDER);
            push_sql(&mut query, direction);
            push_sql(&mut query, OFFER_EXPIRATION_TIES);
        },
    }
    if params.limit.is_some() || params.offset > 0 {
        let limit: i64 = match params.limit {
            Some(l) => l as i64,
            None => -1,
        };
        push_sql(&mut query, " LIMIT ");
        push_bind_i64(&mut query, limit);
        push_sql(&mut query, " OFFSET ");
        push_bind_u32(&mut query, params.offset);
    }
    query
}

/// Search text that is blank once trimmed searches for nothing: the page is
/// the one asked for without search text.
pub proof fn lemma_blank_search_is_no_search(params: OffersPageParams, text: String)
    requires
        trimmed(text@).len() == 0,
    ensures
        offers_page_sql(OffersPageParams { find_text: Some(text), ..params }) == offers_page_sql(
            OffersPageParams { find_text: None, ..params },
        ),
        offers_page_binds(OffersPageParams { find_text: Some(text), ..params }) == offers_page_binds(
            OffersPageParams { find_text: None, ..params },
        ),
{
}

/// The stored columns of an offer, as SQLite returns them.
#[derive(Debug, Clone)]
pub struct OfferRowColumns {
    pub offer_id: Vec<u8>,
    pub encoded_offer: String,
    pub expiration_height: Option<i64>,
    pub expiration_timestamp: Option<i64>,
    pub fee: Vec<u8>,
    pub status: i64,
    pub inserted_timestamp: i64,
    pub total_count: i64,
}

/// A stored height cut to its low 32 bits.
pub open spec fn height_bits(h: Option<i64>) -> Option<u32> {
    match h {
        Some(v) => Some(v as u32),
        None => None,
    }
}

/// A stored timestamp read as unsigned (its two's complement bits).
pub open spec fn timestamp_bits(t: Option<i64>) -> Option<u64> {
    match t {
        Some(v) => Some(v as u64),
        None => None,
    }
}

impl RowColumns for OfferRowColumns {
    type Row = OfferRow;

    /// The id has 32 bytes, the fee 8, and the status names one.
    open spec fn decodable(&self) -> bool {
        &&& self.offer_id@.len() == 32
        &&& self.fee@.len() == 8
        &&& offer_status_of(self.status as int) is Some
    }

    /// The expiration height keeps its low 32 bits, the timestamps are read
    /// as unsigned.
    open spec fn decodes_to(&self, row: OfferRow) -> bool {
        &&& row.offer_id@ == self.offer_id@
        &&& row.encoded_offer@ == self.encoded_offer@
        &&& row.expiration_height == height_bits(self.expiration_height)
        &&& row.expiration_timestamp == timestamp_bits(self.expiration_timestamp)
        &&& row.fee == be_value(self.fee@)
        &&& Some(row.status) == offer_status_of(self.status as int)
        &&& row.inserted_timestamp == self.inserted_timestamp as u64
    }

    /// `e` is the error of the first column, in the order listed, that does
    /// not convert.
    open spec fn decode_error(&self, e: DatabaseError) -> bool {
        if self.offer_id@.len() != 32 {
            e == length_error(self.offer_id@, 32)
        } else if self.fee@.len() != 8 {
            e == length_error(self.fee@, 8)
        } else {
            e is InvalidEnumVariant
        }
    }

    fn decode_row(self) -> (r: Result<OfferRow, DatabaseError>) {
        let offer_id: [u8; 32] = match self.offer_id.convert() {
            Ok(v) => v,
            Err(e) => return Err(e),
        };
        let expiration_height: Option<u32> = match self.expiration_height {
            Some(h) => Some(#[verifier::truncate] (h as u32)),
            None => None,
        };
        let expiration_timestamp: Option<u64> = match self.expiration_timestamp {
            Some(t) => Some(#[verifier::truncate] (t as u64)),
            None => None,
        };
        let fee: u64 = match self.fee.convert() {
            Ok(v) => v,
            Err(e) => return Err(e),
        };
        let status = match offer_status(self.status) {
            Ok(s) => s,
            Err(e) => return Err(e),
        };
        Ok(OfferRow {
            offer_id,
            encoded_offer: self.encoded_offer,
            expiration_height,
            expiration_timestamp,
            fee,
            status,
            inserted_timestamp: #[verifier::truncate] (self.inserted_timestamp as u64),
        })
    }
}

/// Decodes a page of offers: the rows, and the total count of matching
/// offers that the first row carries (zero for an empty page).
pub fn offers_page_rows(rows: Vec<OfferRowColumns>) -> (r: Result<(Vec<OfferRow>, u32), DatabaseError>)
    ensures
        r is Ok <==> (rows@.len() > 0 ==> 0 <= rows@[0].total_count <= u32::MAX) && forall|i: int|
            0 <= i < rows@.len() ==> #[trigger] rows@[i].decodable(),
        r matches Ok((offers, total)) ==> {
            &&& total == (if rows@.len() == 0 { 0 } else { rows@[0].total_count as int })
            &&& offers@.len() == rows@.len()
            &&& forall|i: int| 0 <= i < rows@.len() ==> #[trigger] rows@[i].decodes_to(offers@[i])
        },
        r matches Err(e) ==> if rows@.len() > 0 && !(0 <= rows@[0].total_count <= u32::MAX) {
            e is PrecisionLost
        } else {
            first_row_error(rows@, e)
        },
{
    let first = if rows.len() > 0 {
        Some(rows[0].total_count)
    } else {
        None
    };
    let total = match page_total(first) {
        Ok(t) => t,
        Err(e) => return Err(e),
    };
    match decode_rows(rows) {
        Ok(offers) => Ok((offers, total)),
        Err(e) => Err(e),
    }
}

/// Decodes offers listed without a page count; fails with the error of the
/// first row that does not decode.
pub fn offers_rows(rows: Vec<OfferRowColumns>) -> (r: Result<Vec<OfferRow>, DatabaseError>)
    ensures
        r is Ok <==> forall|i: int| 0 <= i < rows@.len() ==> #[trigger] rows@[i].decodable(),
        r matches Ok(offers) ==> offers@.len() == rows@.len() && forall|i: int|
            0 <= i < rows@.len() ==> #[trigger] rows@[i].decodes_to(offers@[i]),
        r matches Err(e) ==> first_row_error(rows@, e),
{
    decode_rows(rows)
}

/// An asset that an offer gives or asks for, with its amount and royalty.
#[derive(Debug, Clone)]
pub struct OfferedAsset {
    pub offer_id: [u8; 32],
    pub asset: Asset,
    pub is_requested: bool,
    pub amount: u64,
    pub royalty: u64,
}

/// The stored columns of an offered asset; the asset's kind is stored as its
/// index.
#[derive(Debug, Clone)]
pub struct OfferedAssetColumns {
    pub offer_id: Vec<u8>,
    pub asset: AssetColumns,
    pub kind: i64,
    pub amount: Vec<u8>,
    pub royalty: Vec<u8>,
    pub is_requested: bool,
}

impl RowColumns for OfferedAssetColumns {
    type Row = OfferedAsset;

    /// The ids have 32 bytes, the kind names one, the asset converts, the
    /// amount and royalty have 8 bytes.
    open spec fn decodable(&self) -> bool {
        &&& self.offer_id@.len() == 32
        &&& asset_kind_of(self.kind as int) is Some
        &&& self.asset.decodable()
        &&& self.amount@.len() == 8
        &&& self.royalty@.len() == 8
    }

    open spec fn decodes_to(&self, offered: OfferedAsset) -> bool {
        &&& offered.offer_id@ == self.offer_id@
        &&& self.asset.decodes_to(asset_kind_of(self.kind as int)->0, offered.asset)
        &&& offered.is_requested == self.is_requested
        &&& offered.amount == be_value(self.amount@)
        &&& offered.royalty == be_value(self.royalty@)
    }

    /// `e` is the error of the first column that does not convert, in the
    /// order: the offer id, the asset's hash, its kind, the rest of the asset,
    /// the amount, the royalty.
    open spec fn decode_error(&self, e: DatabaseError) -> bool {
        if self.offer_id@.len() != 32 {
            e == length_error(self.offer_id@, 32)
        } else if self.asset.hash@.len() != 32 {
            e == length_error(self.asset.hash@, 32)
        } else if asset_kind_of(self.kind as int) is None {
            e is InvalidEnumVariant
        } else if !self.asset.decodable() {
            self.asset.decode_error(e)
        } else if self.amount@.len() != 8 {
            e == length_error(self.amount@, 8)
        } else {
            e == length_error(self.royalty@, 8)
        }
    }

    fn decode_row(self) -> (r: Result<OfferedAsset, DatabaseError>) {
        let offer_id: [u8; 32] = match self.offer_id.convert() {
            Ok(v) => v,
            Err(e) => return Err(e),
        };
        if self.asset.hash.len() != 32 {
            return Err(DatabaseError::InvalidLength(self.asset.hash.len(), 32));
        }
        let kind: AssetKind = match self.kind.convert() {
            Ok(k) => k,
            Err(e) => return Err(e),
        };
        let asset = match self.asset.decode(kind) {
            Ok(a) => a,
            Err(e) => return Err(e),
        };
        let amount: u64 = match self.amount.convert() {
            Ok(v) => v,
            Err(e) => return Err(e),
        };
        let royalty: u64 = match self.royalty.convert() {
            Ok(v) => v,
            Err(e) => return Err(e),
        };
        Ok(OfferedAsset { offer_id, asset, is_requested: self.is_requested, amount, royalty })
    }
}

/// Decodes the assets of an offer; fails with the error of the first row
/// that does not decode.
pub fn offer_assets_rows(rows: Vec<OfferedAssetColumns>) -> (r: Result<Vec<OfferedAsset>, DatabaseError>)
    ensures
        r is Ok <==> forall|i: int| 0 <= i < rows@.len() ==> #[trigger] rows@[i].decodable(),
        r matches Ok(assets) ==> assets@.len() == rows@.len() && forall|i: int|
            0 <= i < rows@.len() ==> #[trigger] rows@[i].decodes_to(assets@[i]),
        r matches Err(e) ==> first_row_error(rows@, e),
{
    decode_rows(rows)
}

} // verus!
