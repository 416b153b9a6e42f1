//! Create and use UUIDs: a byte-exact encoder, decoder and generator
//! for 128-bit universally unique identifiers.
mod generate;
mod model;
mod text;

pub use generate::Rng;
pub use generate::lemma_name_based_deterministic;
pub use generate::md5_of;
pub use generate::sha1_of;
pub use generate::spec_v1;
pub use generate::spec_v3;
pub use generate::spec_v5;
pub use model::Bytes;
pub use model::Uuid;
pub use model::Variant;
pub use model::Version;
pub use model::lemma_nil_version;
pub use model::lemma_set_variant_tag;
pub use model::lemma_set_version_tag;
pub use model::lemma_swap_endian_involution;
pub use model::lemma_unknown_version_is_nil;
pub use model::namespace_dns;
pub use model::namespace_oid;
pub use model::namespace_url;
pub use model::namespace_x500;
pub use model::spec_clock_sequence;
pub use model::spec_max;
pub use model::spec_namespace_dns;
pub use model::spec_namespace_oid;
pub use model::spec_namespace_url;
pub use model::spec_namespace_x500;
pub use model::spec_nil;
pub use model::spec_set_variant;
pub use model::spec_set_version;
pub use model::spec_swap_endian;
pub use model::spec_timestamp;
pub use model::spec_variant_byte;
pub use model::spec_variant_of;
pub use model::spec_version_byte;
pub use model::spec_version_from_nibble;
pub use model::spec_version_nibble;
pub use model::spec_version_of;
pub use model::swap_index;
pub use text::ParseUuidError;
pub use text::ascii_bytes_of;
pub use text::ascii_chars_of;
pub use text::digit_index;
pub use text::hyph_pos;
pub use text::is_hex_digit;
pub use text::is_hyphen_pos;
pub use text::lemma_ascii_chars_of_bytes;
pub use text::lemma_fmt_hyphenated_ascii;
pub use text::lemma_parse_braced_roundtrip;
pub use text::lemma_parse_format_braced;
pub use text::lemma_parse_format_hyphenated;
pub use text::lemma_parse_format_simple;
pub use text::lemma_parse_format_urn;
pub use text::lemma_parse_hyphenated_roundtrip;
pub use text::lemma_parse_simple_roundtrip;
pub use text::lemma_parse_urn_roundtrip;
pub use text::spec_digit;
pub use text::spec_digit_pos;
pub use text::spec_fmt_braced;
pub use text::spec_fmt_hyphenated;
pub use text::spec_fmt_simple;
pub use text::spec_fmt_urn;
pub use text::spec_group_bytes;
pub use text::spec_groups_ok;
pub use text::spec_hex_char;
pub use text::spec_hex_lower;
pub use text::spec_hex_upper;
pub use text::spec_hex_val;
pub use text::spec_parse;
pub use text::spec_parse_bytes;
pub use text::spec_parse_stripped;
pub use text::spec_urn_prefix;
