//! How a graph lies in its file: the graph's JSON text, compressed as one gzip
//! member.

use std::io::{Read, Write};
use flate2::read::GzDecoder;
use flate2::write::GzEncoder;
use flate2::Compression;
use vstd::prelude::*;
use crate::error::Cause;

verus! {

/// The error of a reader or writer.
#[verifier::external_type_specification]
#[verifier::external_body]
pub struct ExIoError(std::io::Error);

/// The gzip member that `flate2` makes of `content` at its best compression;
/// nothing where it makes none.
pub uninterp spec fn gzip_of(content: Seq<u8>) -> Option<Seq<u8>>;

/// What `flate2` reads out of the gzip member `file`; nothing where `file` is
/// not one.
pub uninterp spec fn gunzip_of(file: Seq<u8>) -> Option<Seq<u8>>;

/// Calls `flate2::write::GzEncoder`: `new` with `Compression::best()` over an
/// empty vector, `write_all` with the whole content, then `finish`. Where that
/// hands back bytes, they are the gzip member of the content; where it fails,
/// the content has none. The header that the encoder writes holds no time and
/// no platform, so whether there is a member, and which, depends on the
/// content alone.
#[verifier::external_body]
pub(crate) fn gzip(content: &[u8]) -> (out: Result<Vec<u8>, std::io::Error>)
    ensures
        match out {
            Ok(bytes) => gzip_of(content@) == Some(bytes@),
            Err(_) => gzip_of(content@) is None,
        },
{
    let mut encoder = GzEncoder::new(Vec::new(), Compression::best());
    encoder.write_all(content)?;
    encoder.finish()
}

/// Calls `flate2::read::GzDecoder`: `new` over the file's bytes, then
/// `read_to_end`. Where that succeeds the bytes read are what the member
/// holds; where it fails the file is no gzip member.
#[verifier::external_body]
pub(crate) fn gunzip(file: &[u8]) -> (out: Result<Vec<u8>, std::io::Error>)
    ensures
        match out {
            Ok(bytes) => gunzip_of(file@) == Some(bytes@),
            Err(_) => gunzip_of(file@) is None,
        },
{
    let mut decoder = GzDecoder::new(file);
    let mut content = Vec::new();
    decoder.read_to_end(&mut content)?;
    Ok(content)
}

/// Calls `to_string` of `std::io::Error`: the error's description. Nothing is
/// claimed of the text.
#[verifier::external_body]
fn describe(error: &std::io::Error) -> (out: String) {
    error.to_string()
}

/// The failure that a reader's or writer's error stands for: a failure
/// without a source, described by the error's own text. What that text is
/// depends on the error and on the platform, and is not stated.
pub(crate) fn cause_of(error: &std::io::Error) -> (out: Cause)
    ensures
        out.source is None,
        out.descriptions().len() == 1,
{
    let text = describe(error);
    Cause::new(text.as_str())
}

} // verus!
