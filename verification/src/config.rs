//! Webhook configuration and its one-time validation.
//!
//! A raw [`NotifierConfig`] arrives once, at setup. [`build`] either rejects
//! it — an ill-formed URL or a malformed header fails construction, never a
//! request — or yields a [`PreparedMiddlewareConfig`] whose header map is
//! parsed and validated once, so no per-request work can fail.

use vstd::prelude::*;
use crate::headers::{
    bytes_of, header_map_entries, header_map_insert, header_map_new, lower_bytes, no_entries,
    valid_header_name, valid_header_value, header_name_is_valid, header_value_is_valid,
    MAX_PREPARED_HEADERS,
};
use crate::url::{valid_url, url_is_valid};

verus! {

/// Raw webhook configuration, as the host application hands it in: the target
/// URL, an optional static body, and optional header pairs.
pub struct NotifierConfig {
    pub url: String,
    pub body: Option<String>,
    pub headers: Option<Vec<(String, String)>>,
}

/// Why a configuration was refused at setup.
#[derive(Debug, Clone, PartialEq, Eq)]
pub enum ConfigError {
    /// The URL is not a syntactically well-formed HTTP(S) URL.
    InvalidUrl,
    /// The named header has a malformed name or value.
    InvalidHeader(String),
}

impl NotifierConfig {
    /// The configured header pairs, as character strings; no header mapping
    /// configured reads as no pairs.
    pub open spec fn pairs(self) -> Seq<(Seq<char>, Seq<char>)> {
        match self.headers {
            Option::Some(v) => Seq::new(v@.len(), |i: int| (v@[i].0@, v@[i].1@)),
            Option::None => Seq::empty(),
        }
    }
}

/// One header pair is grammatical: a token name and a visible value.
pub open spec fn pair_valid(p: (Seq<char>, Seq<char>)) -> bool {
    valid_header_name(bytes_of(p.0)) && valid_header_value(bytes_of(p.1))
}

/// Every header pair is grammatical.
pub open spec fn all_pairs_valid(ps: Seq<(Seq<char>, Seq<char>)>) -> bool {
    forall|i: int| 0 <= i < ps.len() ==> pair_valid(#[trigger] ps[i])
}

/// The header map contents that a pair sequence prepares: each value keyed by
/// the lowercase bytes of its name, later pairs replacing earlier ones under
/// the same name.
pub open spec fn entries_of(ps: Seq<(Seq<char>, Seq<char>)>) -> Map<Seq<u8>, Seq<u8>>
    decreases ps.len(),
{
    if ps.len() == 0 {
        no_entries()
    } else {
        entries_of(ps.drop_last()).insert(
            lower_bytes(bytes_of(ps.last().0)),
            bytes_of(ps.last().1),
        )
    }
}

/// A pair sequence prepares at most one entry per pair.
pub proof fn lemma_entries_of_dom(ps: Seq<(Seq<char>, Seq<char>)>)
    ensures
        entries_of(ps).dom().finite(),
        entries_of(ps).dom().len() <= ps.len(),
    decreases ps.len(),
{
    if ps.len() == 0 {
    } else {
        lemma_entries_of_dom(ps.drop_last());
    }
}

/// A validated, ready-to-use configuration: the URL is well-formed and the
/// header map is already parsed, so dispatching cannot fail on either.
#[derive(Debug)]
pub struct PreparedMiddlewareConfig {
    pub url: String,
    pub headers: Option<http::HeaderMap>,
    pub body: Option<String>,
}

impl PreparedMiddlewareConfig {
    /// What the prepared header map holds; none configured reads as no entries.
    pub open spec fn entries(self) -> Map<Seq<u8>, Seq<u8>> {
        match self.headers {
            Option::Some(m) => header_map_entries(m),
            Option::None => no_entries(),
        }
    }

    /// The prepared URL is well-formed.
    pub open spec fn wf(self) -> bool {
        valid_url(bytes_of(self.url@))
    }
}

/// Validate a raw configuration, once and at setup time.
///
/// Fails fast on the first violation: an ill-formed URL is reported before
/// any header, and a malformed header is reported by its name, in
/// configuration order. On success the prepared configuration carries the
/// URL and body unchanged and a header map holding exactly the configured
/// pairs. The bound on the pair count is a conservative limit under which the
/// header map can always grow (see `MAX_PREPARED_HEADERS`).
pub fn build(config: &NotifierConfig) -> (r: Result<PreparedMiddlewareConfig, ConfigError>)
    requires
        config.pairs().len() <= MAX_PREPARED_HEADERS,
    ensures
        r is Ok <==> valid_url(bytes_of(config.url@)) && all_pairs_valid(config.pairs()),
        r matches Ok(p) ==> {
            &&& p.url@ == config.url@
            &&& p.body.deep_view() == config.body.deep_view()
            &&& (p.headers is Some) <==> (config.headers is Some)
            &&& p.entries() == entries_of(config.pairs())
            &&& p.wf()
        },
        !valid_url(bytes_of(config.url@)) ==> (r matches Err(e) && e is InvalidUrl),
        valid_url(bytes_of(config.url@)) && !all_pairs_valid(config.pairs()) ==> (r matches Err(e)
            && e matches ConfigError::InvalidHeader(n) && (exists|i: int|
        {
            &&& 0 <= i < config.pairs().len()
            &&& !pair_valid(#[trigger] config.pairs()[i])
            &&& n@ == config.pairs()[i].0
            &&& forall|j: int| 0 <= j < i ==> pair_valid(#[trigger] config.pairs()[j])
        })),
{
    if !url_is_valid(config.url.as_str()) {
        return Err(ConfigError::InvalidUrl);
    }
    let ghost ps = config.pairs();
    let prepared_headers: Option<http::HeaderMap> = match &config.headers {
        Option::None => None,
        Option::Some(pairs) => {
            assert(ps.len() == pairs@.len());
            let mut m = header_map_new();
            let mut i: usize = 0;
            while i < pairs.len()
                invariant
                    valid_url(bytes_of(config.url@)),
                    ps == config.pairs(),
                    config.headers matches Some(v) && v == *pairs,
                    ps.len() == pairs@.len() <= MAX_PREPARED_HEADERS,
                    0 <= i <= ps.len(),
                    forall|t: int| 0 <= t < ps.len() ==> #[trigger] ps[t]
                        == (pairs@[t].0@, pairs@[t].1@),
                    header_map_entries(m) == entries_of(ps.take(i as int)),
                    forall|j: int| 0 <= j < i ==> pair_valid(#[trigger] ps[j]),
                decreases ps.len() - i,
            {
                let p = &pairs[i];
                if !header_name_is_valid(p.0.as_str()) || !header_value_is_valid(p.1.as_str()) {
                    assert(!pair_valid(ps[i as int]));
                    return Err(ConfigError::InvalidHeader(p.0.clone()));
                }
                proof {
                    lemma_entries_of_dom(ps.take(i as int));
                }
                header_map_insert(&mut m, p.0.as_str(), p.1.as_str());
                proof {
                    assert(ps.take(i + 1).drop_last() =~= ps.take(i as int));
                    assert(ps.take(i + 1).last() == ps[i as int]);
                }
                i += 1;
            }
            assert(ps.take(ps.len() as int) =~= ps);
            Some(m)
        },
    };
    let prepared = PreparedMiddlewareConfig {
        url: config.url.clone(),
        headers: prepared_headers,
        body: match &config.body {
            Option::Some(b) => Some(b.clone()),
            Option::None => None,
        },
    };
    Ok(prepared)
}

} // verus!
