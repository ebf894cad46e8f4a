//! Image references and their validation.
//!
//! An image reference names a registry image, e.g.
//! `docker.io/library/alpine:latest`. A valid reference splits into a
//! registry host (before the first `/`), a repository path, and either
//! a tag (after the last `:` of the path part) or a digest (after `@`),
//! or neither. The split is defined once at the specification level and
//! the executable parser is proved against it.

use vstd::prelude::*;
use vstd::string::StringSliceAdditionalSpecFns;
use crate::errors::LifecycleError;
use crate::text::{find_first, find_last, copy_range};
use crate::text::{lemma_index_of_first_agrees, lemma_index_of_first_absent};
use crate::text::{lemma_index_of_last_agrees, lemma_index_of_last_absent};

verus! {

/// The byte `/`, separating the registry host from the repository path.
pub const SLASH_BYTE: u8 = 47;

/// The byte `:`, separating the repository path from the tag.
pub const COLON_BYTE: u8 = 58;

/// The byte `@`, separating the name from a content digest.
pub const AT_BYTE: u8 = 64;

/// The components of an image reference, at the specification level.
pub struct ParsedReference {
    pub registry: Seq<u8>,
    pub repository: Seq<u8>,
    pub tag: Option<Seq<u8>>,
    pub digest: Option<Seq<u8>>,
}

/// Splits the name part (everything before any `@`) into registry,
/// repository, and optional tag. The registry is the text before the
/// first `/`; a tag starts after the last `:` of the remainder and may
/// not contain `/` (a `:` earlier in the path does not start a tag).
/// Every component named must be non-empty.
pub open spec fn parse_name(name: Seq<u8>) -> Option<ParsedReference> {
    match name.index_of_first(SLASH_BYTE) {
        Some(fs) => {
            let registry = name.subrange(0, fs);
            let rest = name.subrange(fs + 1, name.len() as int);
            if registry.len() == 0 || rest.len() == 0 {
                None
            } else {
                match rest.index_of_last(COLON_BYTE) {
                    Some(c) => {
                        let repository = rest.subrange(0, c);
                        let tag = rest.subrange(c + 1, rest.len() as int);
                        if repository.len() == 0 || tag.len() == 0 || tag.contains(SLASH_BYTE) {
                            None
                        } else {
                            Some(ParsedReference {
                                registry,
                                repository,
                                tag: Some(tag),
                                digest: None,
                            })
                        }
                    },
                    None => Some(ParsedReference {
                        registry,
                        repository: rest,
                        tag: None,
                        digest: None,
                    }),
                }
            }
        },
        None => None,
    }
}

/// Splits a full image reference into its components, or yields `None`
/// where the text is not a valid reference. A digest, if present,
/// follows the first `@` and must be non-empty.
pub open spec fn parse_reference(b: Seq<u8>) -> Option<ParsedReference> {
    if b.len() == 0 {
        None
    } else {
        match b.index_of_first(AT_BYTE) {
            Some(at) => {
                let name = b.subrange(0, at);
                let digest = b.subrange(at + 1, b.len() as int);
                if digest.len() == 0 {
                    None
                } else {
                    match parse_name(name) {
                        Some(p) => Some(ParsedReference { digest: Some(digest), ..p }),
                        None => None,
                    }
                }
            },
            None => parse_name(b),
        }
    }
}

/// The text a parsed reference stands for: the components, re-joined
/// with their separators.
pub open spec fn reassemble(p: ParsedReference) -> Seq<u8> {
    p.registry + seq![SLASH_BYTE] + p.repository + (match p.tag {
        Some(t) => seq![COLON_BYTE] + t,
        None => Seq::empty(),
    }) + (match p.digest {
        Some(d) => seq![AT_BYTE] + d,
        None => Seq::empty(),
    })
}

/// Splitting the name part loses nothing: the registry, repository,
/// and tag re-join to the name, and the name part carries no digest.
proof fn lemma_parse_name_reconstructs(name: Seq<u8>, p: ParsedReference)
    requires
        parse_name(name) == Some(p),
    ensures
        p.digest is None,
        name == p.registry + seq![SLASH_BYTE] + p.repository + (match p.tag {
            Some(t) => seq![COLON_BYTE] + t,
            None => Seq::<u8>::empty(),
        }),
{
    name.index_of_first_ensures(SLASH_BYTE);
    let fs = name.index_of_first(SLASH_BYTE)->0;
    let registry = name.subrange(0, fs);
    let rest = name.subrange(fs + 1, name.len() as int);
    assert(name =~= registry + seq![SLASH_BYTE] + rest);
    rest.index_of_last_ensures(COLON_BYTE);
    match rest.index_of_last(COLON_BYTE) {
        Some(c) => {
            assert(rest =~= rest.subrange(0, c) + seq![COLON_BYTE] + rest.subrange(
                c + 1,
                rest.len() as int,
            ));
            assert(name =~= p.registry + seq![SLASH_BYTE] + p.repository + (seq![COLON_BYTE]
                + p.tag->0));
        },
        None => {
            assert(name =~= p.registry + seq![SLASH_BYTE] + p.repository
                + Seq::<u8>::empty());
        },
    }
}

/// Parsing loses nothing: the components of a parsed reference
/// re-join, with their separators, to exactly the input text.
pub proof fn lemma_parse_reconstructs(b: Seq<u8>, p: ParsedReference)
    requires
        parse_reference(b) == Some(p),
    ensures
        b == reassemble(p),
{
    b.index_of_first_ensures(AT_BYTE);
    match b.index_of_first(AT_BYTE) {
        Some(at) => {
            let name = b.subrange(0, at);
            let digest = b.subrange(at + 1, b.len() as int);
            assert(b =~= name + seq![AT_BYTE] + digest);
            let q = parse_name(name)->0;
            lemma_parse_name_reconstructs(name, q);
            assert(b =~= reassemble(p));
        },
        None => {
            lemma_parse_name_reconstructs(b, p);
            assert(b =~= reassemble(p));
        },
    }
}

/// An image reference together with its parsed components.
#[derive(Clone)]
pub struct ImageReference {
    /// The full reference text as the caller gave it.
    pub reference: String,
    /// The registry host, e.g. `docker.io`.
    pub registry: Vec<u8>,
    /// The repository path, e.g. `library/alpine`.
    pub repository: Vec<u8>,
    /// The tag, e.g. `latest`, if the reference names one.
    pub tag: Option<Vec<u8>>,
    /// The content digest, if the reference pins one.
    pub digest: Option<Vec<u8>>,
}

impl ImageReference {
    /// The UTF-8 bytes of the full reference text.
    pub open spec fn ref_bytes(self) -> Seq<u8> {
        vstd::utf8::encode_utf8(self.reference@)
    }

    /// The stored components, at the specification level.
    pub open spec fn parsed(self) -> ParsedReference {
        ParsedReference {
            registry: self.registry@,
            repository: self.repository@,
            tag: match self.tag {
                Some(t) => Some(t@),
                None => None,
            },
            digest: match self.digest {
                Some(d) => Some(d@),
                None => None,
            },
        }
    }

    /// The stored components are exactly what the reference text parses to.
    pub open spec fn wf(self) -> bool {
        parse_reference(self.ref_bytes()) == Some(self.parsed())
    }
}

/// Parses an image reference, returning its components exactly when the
/// text is a valid reference and `InvalidSpecError` otherwise.
pub fn parse_image_reference(text: &str) -> (r: Result<ImageReference, LifecycleError>)
    ensures
        match r {
            Ok(ir) => {
                &&& ir.reference@ == text@
                &&& parse_reference(text.spec_bytes()) == Some(ir.parsed())
                &&& ir.wf()
            },
            Err(e) => {
                &&& parse_reference(text.spec_bytes()) is None
                &&& e == LifecycleError::InvalidSpecError
            },
        },
{
    let bytes: &[u8] = text.as_bytes();
    let n: usize = bytes.len();
    if n == 0 {
        return Err(LifecycleError::InvalidSpecError);
    }

    let ghost b: Seq<u8> = bytes@;
    let (name, digest): (Vec<u8>, Option<Vec<u8>>) = match find_first(bytes, AT_BYTE) {
        Some(at) => {
            proof {
                lemma_index_of_first_agrees(b, AT_BYTE, at as int);
            }
            if at + 1 == n {
                return Err(LifecycleError::InvalidSpecError);
            }
            (copy_range(bytes, 0, at), Some(copy_range(bytes, at + 1, n)))
        },
        None => {
            proof {
                lemma_index_of_first_absent(b, AT_BYTE);
                assert(b.subrange(0, n as int) =~= b);
            }
            (copy_range(bytes, 0, n), None)
        },
    };
    let ghost name_seq: Seq<u8> = name@;

    let nm: &[u8] = name.as_slice();
    let nlen: usize = nm.len();
    let fs: usize = match find_first(nm, SLASH_BYTE) {
        Some(i) => {
            proof {
                lemma_index_of_first_agrees(name_seq, SLASH_BYTE, i as int);
            }
            i
        },
        None => {
            proof {
                lemma_index_of_first_absent(name_seq, SLASH_BYTE);
            }
            return Err(LifecycleError::InvalidSpecError);
        },
    };
    if fs == 0 || fs + 1 == nlen {
        return Err(LifecycleError::InvalidSpecError);
    }
    let registry: Vec<u8> = copy_range(nm, 0, fs);
    let rest: Vec<u8> = copy_range(nm, fs + 1, nlen);
    let ghost rest_seq: Seq<u8> = rest@;

    let rs: &[u8] = rest.as_slice();
    let rlen: usize = rs.len();
    let (repository, tag): (Vec<u8>, Option<Vec<u8>>) = match find_last(rs, COLON_BYTE) {
        Some(c) => {
            proof {
                lemma_index_of_last_agrees(rest_seq, COLON_BYTE, c as int);
            }
            if c == 0 || c + 1 == rlen {
                return Err(LifecycleError::InvalidSpecError);
            }
            let tag_part: Vec<u8> = copy_range(rs, c + 1, rlen);
            match find_first(tag_part.as_slice(), SLASH_BYTE) {
                Some(_) => {
                    return Err(LifecycleError::InvalidSpecError);
                },
                None => {
                    assert(!rest_seq.subrange(c + 1, rlen as int).contains(SLASH_BYTE));
                },
            }
            (copy_range(rs, 0, c), Some(tag_part))
        },
        None => {
            proof {
                lemma_index_of_last_absent(rest_seq, COLON_BYTE);
            }
            (rest, None)
        },
    };

    Ok(ImageReference { reference: text.to_owned(), registry, repository, tag, digest })
}

} // verus!
