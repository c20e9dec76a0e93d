//! Content identifiers.

use vstd::prelude::*;

use crate::error::WarpError;

verus! {

/// Whether a text names a content identifier.
pub uninterp spec fn is_cid(text: Seq<char>) -> bool;

/// `libipld::Cid::from_str`, of which only the error is kept: whether a text names
/// a content identifier. Which one it names is left to the node, which reads the
/// same text.
#[verifier::external_body]
fn parse_cid(text: &str) -> (r: Result<(), libipld::cid::Error>)
    ensures
        r is Ok <==> is_cid(text@),
{
    text.parse::<libipld::Cid>().map(|_| ())
}

/// The identifier of a piece of content, by a text that names it.
#[derive(Debug, PartialEq, Eq)]
pub struct Cid {
    text: String,
}

impl View for Cid {
    type V = Seq<char>;

    /// The text that names the identifier.
    closed spec fn view(&self) -> Seq<char> {
        self.text@
    }
}

impl Cid {
    /// The text does name an identifier.
    pub open spec fn wf(self) -> bool {
        is_cid(self@)
    }

    #[verifier::type_invariant]
    spec fn inv(self) -> bool {
        self.wf()
    }

    /// Reads a content identifier.
    pub fn parse(text: &str) -> (r: Result<Cid, WarpError>)
        ensures
            match r {
                Ok(cid) => cid.wf() && cid@ == text@,
                Err(WarpError::Cid(_)) => !is_cid(text@),
                Err(_) => false,
            },
    {
        match parse_cid(text) {
            Ok(_) => Ok(Cid { text: text.to_string() }),
            Err(error) => Err(WarpError::Cid(error)),
        }
    }

    /// The text that names the identifier.
    pub fn as_text(&self) -> (r: &str)
        ensures
            r@ == self@,
            self.wf(),
    {
        proof {
            use_type_invariant(self);
        }
        self.text.as_str()
    }
}

/// A text that names a content identifier is read, and the identifier gives that
/// text back; any other text is refused.
pub proof fn content_id_gives_its_text_back(
    text: &str,
    read: Result<Cid, WarpError>,
    cid: Cid,
    written: &str,
)
    requires
        call_ensures(Cid::parse, (text,), read),
        call_ensures(Cid::as_text, (&cid,), written),
    ensures
        read is Ok <==> is_cid(text@),
        read == Ok::<Cid, WarpError>(cid) ==> written@ == text@,
        read matches Err(error) ==> error is Cid,
{
}

} // verus!
