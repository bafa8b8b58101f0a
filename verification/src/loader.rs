//! The range loader: turns raw feed content into range records per declared
//! source format, decides cache staleness, and derives cache file names.
//!
//! Parsing never aborts on a bad line or entry: invalid input is skipped,
//! and exactly the valid lines yield records. The `JsonList` format falls
//! back to plain-text CIDR parsing when the content is not JSON of a
//! recognized shape.

use vstd::prelude::*;
use crate::net::{host_cidr_text, ip_of_text, loose_net_of_text, loose_net_text};
use crate::net::{ip_host_cidr, loose_net_to_string, parse_ip, parse_net_loose, raw_host_cidr};
use crate::text::{find_from, second_token, starts_with, trim_of};
use crate::text::{find_char, second_token_str, str_starts_with, trim_str};
use crate::types::{IpCategory, IpRange, IpRangeError, IpVersion, SourceFormat};

verus! {

/// Configuration for an IP range data source.
#[derive(Debug, Clone)]
pub struct IpRangeSource {
    pub url: String,
    pub category: IpCategory,
    pub name: String,
    pub enabled: bool,
    pub format: SourceFormat,
}

/// Configuration for loading IP ranges.
#[derive(Debug, Clone)]
pub struct IpRangeLoaderConfig {
    /// Base directory for storing downloaded files.
    pub data_dir: String,
    /// Whether to check for updates on startup.
    pub check_updates: bool,
    /// Maximum age of cached data before updating (in seconds).
    pub max_cache_age_secs: u64,
}

impl Default for IpRangeLoaderConfig {
    fn default() -> (r: Self)
        ensures
            r.data_dir@ == "data/ip_ranges"@,
            r.check_updates == true,
            r.max_cache_age_secs == 86400,
    {
        IpRangeLoaderConfig {
            data_dir: String::from_str("data/ip_ranges"),
            check_updates: true,
            max_cache_age_secs: 86400,
        }
    }
}

/// What the `serde_json` parse of a piece of text hands the loader: `None`
/// where the text is not JSON of a recognized shape; otherwise the elements
/// of the `list` field (MISP warning-list shape) or of the root array, each
/// as its string content where it is a JSON string.
pub uninterp spec fn json_entries(s: Seq<char>) -> Option<Seq<Option<Seq<char>>>>;

/// Relies on serde_json::from_str and Value: recognizes a JSON object with
/// a `list` array or a root JSON array, and hands each element out as its
/// string content, or `None` for a non-string element.
#[verifier::external_body]
fn extract_json_list(content: &str) -> (r: Option<Vec<Option<String>>>)
    ensures
        (r is Some) == (json_entries(content@) is Some),
        r matches Some(v) ==> (json_entries(content@) matches Some(es) && v@.len() == es.len()
            && (forall|i: int|
            0 <= i < es.len() ==> ((#[trigger] es[i]) matches Some(t) ==> v@[i] matches Some(st)
                && st@ == t)) && (forall|i: int|
            0 <= i < es.len() ==> ((#[trigger] es[i]) is None ==> v@[i] is None))),
{
    let value: serde_json::Value = match serde_json::from_str(content) {
        Ok(v) => v,
        Err(_) => return None,
    };
    let items: &Vec<serde_json::Value> =
        if let Some(list) = value.get("list").and_then(|l| l.as_array()) {
            list
        } else if let Some(root) = value.as_array() {
            root
        } else {
            return None;
        };
    Some(items.iter().map(|item| item.as_str().map(|s| s.to_string())).collect())
}

/// The network text a trimmed, non-blank, non-comment line contributes
/// under a format, or nothing where it is unparsable. The `JsonList` arm is
/// the plain-text fallback rule.
pub open spec fn line_rule(t: Seq<char>, f: SourceFormat) -> Option<Seq<char>> {
    {
        match f {
            SourceFormat::Default => match loose_net_of_text(t) {
                Some(n) => Some(loose_net_text(n)),
                None => match ip_of_text(t) {
                    Some(ip) => Some(host_cidr_text(ip)),
                    None => None,
                },
            },
            SourceFormat::IpPort => {
                let pre = t.take(find_from(t, 0, ':'));
                match ip_of_text(pre) {
                    Some(ip) => Some(
                        pre + (if crate::net::ip_is_v4(ip) {
                            "/32"@
                        } else {
                            "/128"@
                        }),
                    ),
                    None => None,
                }
            },
            SourceFormat::TorExitList => {
                if starts_with(t, "ExitNode"@) || starts_with(t, "Published"@) || starts_with(
                    t,
                    "LastStatus"@,
                ) {
                    None
                } else {
                    match second_token(t) {
                        Some(tok) => match ip_of_text(tok) {
                            Some(ip) => Some(host_cidr_text(ip)),
                            None => None,
                        },
                        None => None,
                    }
                }
            },
            SourceFormat::JsonList => match loose_net_of_text(t) {
                Some(n) => Some(loose_net_text(n)),
                None => None,
            },
        }
    }
}

/// The network text a raw line contributes: nothing where it trims to a
/// blank line or a comment, its format's line rule otherwise.
pub open spec fn line_record(line: Seq<char>, f: SourceFormat) -> Option<Seq<char>> {
    let t = trim_of(line);
    if t.len() == 0 || t[0] == '#' {
        None
    } else {
        line_rule(t, f)
    }
}

/// The network texts contributed by the lines of `s` from position `i` on.
pub open spec fn line_records_from(s: Seq<char>, i: int, f: SourceFormat) -> Seq<Seq<char>>
    decreases s.len() - i,
    via line_records_from_decreases
{
    if i < 0 || i >= s.len() {
        Seq::empty()
    } else {
        let q = find_from(s, i, '\n');
        let head = match line_record(s.subrange(i, q), f) {
            Some(t) => seq![t],
            None => Seq::empty(),
        };
        if q >= s.len() {
            head
        } else {
            head + line_records_from(s, q + 1, f)
        }
    }
}

#[via_fn]
proof fn line_records_from_decreases(s: Seq<char>, i: int, f: SourceFormat) {
    if 0 <= i < s.len() {
        crate::text::lemma_scan_bounds(s, i, '\n');
    }
}

/// The network texts contributed by a JSON entry list: each string entry
/// that parses as a CIDR, kept as its raw text.
pub open spec fn json_models(es: Seq<Option<Seq<char>>>) -> Seq<Seq<char>>
    decreases es.len(),
{
    if es.len() == 0 {
        Seq::empty()
    } else {
        let head = match es[0] {
            Some(t) => if loose_net_of_text(t) is Some {
                seq![t]
            } else {
                Seq::empty()
            },
            None => Seq::empty(),
        };
        head + json_models(es.drop_first())
    }
}

/// The network texts a whole piece of content yields under a format: the
/// JSON tiers where they apply, the line-based rules otherwise.
pub open spec fn parse_models(content: Seq<char>, f: SourceFormat) -> Seq<Seq<char>> {
    if f == SourceFormat::JsonList {
        match json_entries(content) {
            Some(es) => json_models(es),
            None => line_records_from(content, 0, f),
        }
    } else {
        line_records_from(content, 0, f)
    }
}

/// The network texts of a record sequence.
pub open spec fn networks_of(rs: Seq<IpRange>) -> Seq<Seq<char>> {
    rs.map_values(|r: IpRange| r.network@)
}

/// Whether every record carries the given source fields and a CIDR text
/// that parses back to a network.
pub open spec fn records_tagged(rs: Seq<IpRange>, source: IpRangeSource) -> bool {
    forall|i: int|
        0 <= i < rs.len() ==> ((#[trigger] rs[i]).category == source.category && rs[i].source@
            == source.name@ && rs[i].format == source.format && rs[i].first_seen
            == rs[i].last_updated && loose_net_of_text(rs[i].network@) is Some)
}

/// Handles loading IP ranges from various sources.
#[derive(Debug, Clone)]
pub struct IpRangeLoader {
    pub config: IpRangeLoaderConfig,
}

/// Parses one trimmed, non-blank, non-comment line according to the
/// format's line rule.
fn parse_line(t: &str, f: SourceFormat) -> (r: Option<String>)
    ensures
        (r is Some) == (line_rule(t@, f) is Some),
        r matches Some(s) ==> line_rule(t@, f) == Some(s@),
        r matches Some(s) ==> loose_net_of_text(s@) is Some,
{
    match f {
        SourceFormat::Default => match parse_net_loose(t) {
            Some(n) => Some(loose_net_to_string(&n)),
            None => match parse_ip(t) {
                Some(ip) => Some(ip_host_cidr(&ip)),
                None => None,
            },
        },
        SourceFormat::IpPort => {
            let colon = find_char(t, 0, ':');
            let pre = t.substring_char(0, colon);
            raw_host_cidr(pre)
        },
        SourceFormat::TorExitList => {
            if str_starts_with(t, "ExitNode") || str_starts_with(t, "Published") || str_starts_with(
                t,
                "LastStatus",
            ) {
                None
            } else {
                match second_token_str(t) {
                    Some(tok) => match parse_ip(tok) {
                        Some(ip) => Some(ip_host_cidr(&ip)),
                        None => None,
                    },
                    None => None,
                }
            }
        },
        SourceFormat::JsonList => match parse_net_loose(t) {
            Some(n) => Some(loose_net_to_string(&n)),
            None => None,
        },
    }
}

impl IpRangeLoader {
    /// Create a new IP range loader with the given configuration.
    pub fn new(config: IpRangeLoaderConfig) -> (r: Self)
        ensures
            r.config == config,
    {
        IpRangeLoader { config }
    }

    /// Parse feed content line by line under the format's line rule,
    /// skipping blank lines, comments and unparsable lines.
    fn parse_lines(&self, content: &str, source: &IpRangeSource) -> (r: Vec<IpRange>)
        ensures
            networks_of(r@) == line_records_from(content@, 0, source.format),
            records_tagged(r@, *source),
    {
        let mut records: Vec<IpRange> = Vec::new();
        let n = content.unicode_len();
        let mut p: usize = 0;
        while p < n
            invariant
                p <= n,
                n == content@.len(),
                line_records_from(content@, 0, source.format) == networks_of(records@)
                    + line_records_from(content@, p as int, source.format),
                records_tagged(records@, *source),
            decreases n - p,
        {
            let ghost models_before = networks_of(records@);
            let q = find_char(content, p, '\n');
            let line = content.substring_char(p, q);
            let ghost piece = match line_record(line@, source.format) {
                Some(t) => seq![t],
                None => Seq::<Seq<char>>::empty(),
            };
            proof {
                assert(line@ =~= content@.subrange(p as int, q as int));
            }
            let t = trim_str(line);
            let picked: Option<String> = if t.unicode_len() == 0 {
                proof {
                    assert(line_record(line@, source.format) is None);
                }
                None
            } else if t.get_char(0) == '#' {
                proof {
                    assert(line_record(line@, source.format) is None);
                }
                None
            } else {
                proof {
                    assert(line_record(line@, source.format) == line_rule(
                        trim_of(line@),
                        source.format,
                    ));
                }
                parse_line(t, source.format)
            };
            match picked {
                Some(txt) => {
                    proof {
                        assert(piece =~= seq![txt@]);
                    }
                    let record = IpRange::new(
                        txt,
                        source.category,
                        source.name.clone(),
                        source.format,
                    );
                    records.push(record);
                    proof {
                        assert(networks_of(records@) =~= models_before + piece);
                    }
                },
                None => {
                    proof {
                        assert(piece =~= Seq::<Seq<char>>::empty());
                        assert(networks_of(records@) =~= models_before + piece);
                    }
                },
            }
            if q < n {
                p = q + 1;
            } else {
                proof {
                    assert(line_records_from(content@, q as int + 1, source.format)
                        =~= Seq::<Seq<char>>::empty());
                }
                p = n;
            }
        }
        records
    }

    /// Parse IP ranges from raw feed content according to the source's
    /// declared format. Invalid lines or entries are counted out, never
    /// escalated: the call always succeeds, and yields exactly one record
    /// per valid line or entry.
    pub fn parse_ranges(&self, content: &str, source: &IpRangeSource) -> (r: Result<
        Vec<IpRange>,
        IpRangeError,
    >)
        ensures
            r is Ok,
            r matches Ok(records) ==> networks_of(records@) == parse_models(
                content@,
                source.format,
            ) && records_tagged(records@, *source),
    {
        let is_json = match source.format {
            SourceFormat::JsonList => true,
            _ => false,
        };
        if is_json {
            match extract_json_list(content) {
                Some(entries) => {
                    let ghost es = json_entries(content@)->Some_0;
                    let mut records: Vec<IpRange> = Vec::new();
                    proof {
                        assert(es.skip(0) =~= es);
                        assert(networks_of(records@) =~= Seq::<Seq<char>>::empty());
                    }
                    let m = entries.len();
                    let mut i: usize = 0;
                    while i < m
                        invariant
                            i <= m,
                            m == entries@.len(),
                            m == es.len(),
                            forall|j: int|
                                0 <= j < es.len() ==> ((#[trigger] es[j]) matches Some(t)
                                    ==> entries@[j] matches Some(st) && st@ == t),
                            forall|j: int|
                                0 <= j < es.len() ==> ((#[trigger] es[j]) is None ==> entries@[j] is None),
                            json_models(es) == networks_of(records@) + json_models(
                                es.skip(i as int),
                            ),
                            records_tagged(records@, *source),
                        decreases m - i,
                    {
                        let ghost models_before = networks_of(records@);
                        proof {
                            assert(es.skip(i as int)[0] == es[i as int]);
                            assert(es.skip(i as int).drop_first() =~= es.skip(i + 1));
                        }
                        match &entries[i] {
                            Some(st) => {
                                match parse_net_loose(st.as_str()) {
                                    Some(_) => {
                                        let record = IpRange::new(
                                            st.clone(),
                                            source.category,
                                            source.name.clone(),
                                            source.format,
                                        );
                                        records.push(record);
                                        proof {
                                            assert(networks_of(records@) =~= models_before
                                                + seq![st@]);
                                        }
                                    },
                                    None => (),
                                }
                            },
                            None => (),
                        }
                        i += 1;
                    }
                    proof {
                        assert(json_models(es.skip(m as int)) =~= Seq::<Seq<char>>::empty());
                        assert(networks_of(records@) =~= json_models(es));
                    }
                    Ok(records)
                },
                None => Ok(self.parse_lines(content, source)),
            }
        } else {
            Ok(self.parse_lines(content, source))
        }
    }

    /// Whether a cache file needs to be re-downloaded: true when no
    /// modification time is known (the file is absent or unreadable), or
    /// when its age exceeds the configured maximum cache age.
    pub fn needs_update(&self, modified: Option<u64>, now: u64) -> (r: bool)
        ensures
            r == (match modified {
                None => true,
                Some(m) => now - m > self.config.max_cache_age_secs,
            }),
    {
        match modified {
            None => true,
            Some(m) => {
                if now > m {
                    now - m > self.config.max_cache_age_secs
                } else {
                    false
                }
            },
        }
    }

    /// The deterministic cache file name for a source, derived from its
    /// category and address family.
    pub fn filename_from_url(&self, url: &str, category: IpCategory, ip_version: IpVersion) -> (r:
        String)
        ensures
            r@ == cache_file_name(category, ip_version),
    {
        let name: &str = match (category, ip_version) {
            (IpCategory::Vpn, IpVersion::V4) => "vpns_v4.txt",
            (IpCategory::Vpn, IpVersion::V6) => "vpns_v6.txt",
            (IpCategory::ProxyHttp, IpVersion::V4) => "http_proxies_v4.txt",
            (IpCategory::ProxyHttp, IpVersion::V6) => "http_proxies_v6.txt",
            (IpCategory::ProxySocks4, IpVersion::V4) => "socks4_proxies_v4.txt",
            (IpCategory::ProxySocks4, IpVersion::V6) => "socks4_proxies_v6.txt",
            (IpCategory::ProxySocks5, IpVersion::V4) => "socks5_proxies_v4.txt",
            (IpCategory::ProxySocks5, IpVersion::V6) => "socks5_proxies_v6.txt",
            (IpCategory::TorExitNode, IpVersion::V4) => "tor_exit_nodes_v4.txt",
            (IpCategory::TorExitNode, IpVersion::V6) => "tor_exit_nodes_v6.txt",
        };
        String::from_str(name)
    }
}

/// The cache file name of a category and address family.
pub open spec fn cache_file_name(category: IpCategory, ip_version: IpVersion) -> Seq<char> {
    match (category, ip_version) {
        (IpCategory::Vpn, IpVersion::V4) => "vpns_v4.txt"@,
        (IpCategory::Vpn, IpVersion::V6) => "vpns_v6.txt"@,
        (IpCategory::ProxyHttp, IpVersion::V4) => "http_proxies_v4.txt"@,
        (IpCategory::ProxyHttp, IpVersion::V6) => "http_proxies_v6.txt"@,
        (IpCategory::ProxySocks4, IpVersion::V4) => "socks4_proxies_v4.txt"@,
        (IpCategory::ProxySocks4, IpVersion::V6) => "socks4_proxies_v6.txt"@,
        (IpCategory::ProxySocks5, IpVersion::V4) => "socks5_proxies_v4.txt"@,
        (IpCategory::ProxySocks5, IpVersion::V6) => "socks5_proxies_v6.txt"@,
        (IpCategory::TorExitNode, IpVersion::V4) => "tor_exit_nodes_v4.txt"@,
        (IpCategory::TorExitNode, IpVersion::V6) => "tor_exit_nodes_v6.txt"@,
    }
}

/// The number of lines from position `i` on whose line rule yields a
/// record.
pub open spec fn valid_lines_from(s: Seq<char>, i: int, f: SourceFormat) -> int
    decreases s.len() - i,
    via valid_lines_from_decreases
{
    if i < 0 || i >= s.len() {
        0
    } else {
        let q = find_from(s, i, '\n');
        let head: int = if line_record(s.subrange(i, q), f) is Some {
            1
        } else {
            0
        };
        if q >= s.len() {
            head
        } else {
            head + valid_lines_from(s, q + 1, f)
        }
    }
}

#[via_fn]
proof fn valid_lines_from_decreases(s: Seq<char>, i: int, f: SourceFormat) {
    if 0 <= i < s.len() {
        crate::text::lemma_scan_bounds(s, i, '\n');
    }
}

/// Line-based parsing yields exactly one record per valid line: blank
/// lines, comments and unparsable lines contribute nothing, for every
/// source format.
pub proof fn lemma_one_record_per_valid_line(s: Seq<char>, i: int, f: SourceFormat)
    ensures
        line_records_from(s, i, f).len() == valid_lines_from(s, i, f),
    decreases s.len() - i,
{
    if 0 <= i < s.len() {
        let q = find_from(s, i, '\n');
        crate::text::lemma_scan_bounds(s, i, '\n');
        if q < s.len() {
            lemma_one_record_per_valid_line(s, q + 1, f);
        }
    }
}

/// The JSON fallback law: `JsonList` content that is not JSON of a
/// recognized shape is parsed by the plain-text line rule, yielding the
/// same records plain CIDR lines would.
pub proof fn lemma_json_fallback(content: Seq<char>)
    requires
        json_entries(content) is None,
    ensures
        parse_models(content, SourceFormat::JsonList) == line_records_from(
            content,
            0,
            SourceFormat::JsonList,
        ),
{
}

} // verus!
