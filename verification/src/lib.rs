// A verified core for polling the SEC EDGAR "getcurrent" filings feed:
// decoding a transport-compressed response, parsing it as Atom with an RSS
// fallback, reading entries uniformly across both formats, deriving the
// filing's index-headers URL from an entry link, and computing the jittered
// poll interval. The HTTP transport and file output live outside, in the
// accompanying application crate.

mod decoder;
mod errors;
mod feed;
mod filing;
mod filing_url;
mod stream;
mod strutil;

pub use decoder::decode;
pub use decoder::decoded_body;
pub use decoder::deflate_round_trip;
pub use decoder::gunzip_of;
pub use decoder::gzip_round_trip;
pub use decoder::inflate_of;
pub use decoder::label_is;
pub use decoder::label_view;
pub use decoder::utf8_lossy_of;

pub use errors::DecodeError;
pub use errors::DeriveError;
pub use errors::Error;
pub use errors::ParseError;
pub use errors::SelectError;

pub use feed::first_alternate;
pub use feed::has_alternate;
pub use feed::is_alternate;
pub use feed::lemma_link_absent_without_alternate;
pub use feed::opt_str_view;
pub use feed::opt_string_view;
pub use feed::opt_vec_str_view;
pub use feed::rfc2822_of;
pub use feed::AtomEntry;
pub use feed::AtomLink;
pub use feed::FeedEntry;
pub use feed::FeedReader;
pub use feed::RssItem;
pub use feed::Timestamp;

pub use filing::BusinessAddress;
pub use filing::CompanyData;
pub use filing::FilingDocument;
pub use filing::FilingFiler;
pub use filing::FilingHeader;
pub use filing::FilingValues;
pub use filing::FormerCompany;
pub use filing::MailAddress;
pub use filing::SecDocument;
pub use filing::Type;

pub use filing_url::derive_filing_url;
pub use filing_url::derived_url;
pub use filing_url::first_match_from;
pub use filing_url::has_index_marker;
pub use filing_url::second_segment_end;

pub use stream::atom_model_of;
pub use stream::compute_interval;
pub use stream::interval_nanos_from_draw;
pub use stream::interval_nanos_spec;
pub use stream::prepare_filing_request;
pub use stream::rss_model_of;
pub use stream::select_entry;
pub use stream::Feed;
pub use stream::Stream;

pub use strutil::eq_ignore_case;
pub use strutil::find_from;
pub use strutil::has_match_in;
pub use strutil::lower_code;
pub use strutil::match_at;
pub use strutil::str_eq;
pub use strutil::str_eq_ignore_ascii_case;
