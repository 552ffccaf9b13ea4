//! Shortened forms for display, record text, and the output format choice.
use vstd::prelude::*;
use vstd::string::StringSliceAdditionalSpecFns;
use vstd::utf8::{decode_utf8, encode_utf8, encode_utf8_decode_utf8, is_char_boundary};

use crate::crypto::{ed25519_point_of, ed25519_public_key};
use crate::encoding::{append_bytes, same_text};
use crate::error::WalletError;
use crate::wallet::Wallet;

verus! {

/// Text of more than 20 bytes (UTF-8) shortened to its first ten bytes, `...`,
/// and its last ten bytes; shorter text is kept.
pub open spec fn shortened(s: Seq<char>) -> Seq<char> {
    let b = encode_utf8(s);
    if b.len() > 20 {
        decode_utf8(b.subrange(0, 10)) + "..."@ + decode_utf8(b.subrange(b.len() - 10, b.len() as int))
    } else {
        s
    }
}

/// Text that can be shortened: at most 20 bytes, or cut at character
/// boundaries ten bytes from each end.
pub open spec fn can_shorten(s: Seq<char>) -> bool {
    let b = encode_utf8(s);
    b.len() <= 20 || (is_char_boundary(b, 10) && is_char_boundary(b, b.len() - 10))
}

fn shorten(s: &str) -> (r: String)
    requires
        can_shorten(s@),
    ensures
        r@ == shortened(s@),
{
    let n = s.as_bytes().len();
    proof {
        assert(s.spec_bytes() == encode_utf8(s@));
    }
    if n > 20 {
        let (head, _) = s.split_at(10);
        let (_, tail) = s.split_at(n - 10);
        proof {
            encode_utf8_decode_utf8(head@);
            encode_utf8_decode_utf8(tail@);
        }
        let mut r = head.to_owned();
        r.append("...");
        r.append(tail);
        r
    } else {
        s.to_owned()
    }
}

/// An address shortened for display, cut by UTF-8 bytes.
pub fn format_address(address: &str) -> (r: String)
    requires
        can_shorten(address@),
    ensures
        r@ == shortened(address@),
{
    shorten(address)
}

/// A hex private key shortened for display, cut by UTF-8 bytes.
pub fn format_private_key(private_key: &str) -> (r: String)
    requires
        can_shorten(private_key@),
    ensures
        r@ == shortened(private_key@),
{
    shorten(private_key)
}

/// Renders wallet data as QR codes; the rendering itself needs a terminal or a file.
pub struct QrGenerator;

impl QrGenerator {
    pub fn new() -> Self {
        QrGenerator
    }
}

/// How a record is written out.
#[derive(Debug, Clone, Copy, PartialEq, Eq, Structural)]
pub enum OutputFormat {
    Json,
    Text,
}

impl OutputFormat {
    /// `json` or `txt`; any other name is `UnsupportedFormat`.
    pub fn parse(name: &str) -> (r: Result<OutputFormat, WalletError>)
        ensures
            r == (if name@ == "json"@ {
                Ok(OutputFormat::Json)
            } else if name@ == "txt"@ {
                Ok(OutputFormat::Text)
            } else {
                Err(WalletError::UnsupportedFormat)
            }),
    {
        if same_text(name, "json") {
            Ok(OutputFormat::Json)
        } else if same_text(name, "txt") {
            Ok(OutputFormat::Text)
        } else {
            Err(WalletError::UnsupportedFormat)
        }
    }

    /// The file extension of the format.
    pub fn extension(&self) -> (r: &'static str)
        ensures
            r@ == (match self {
                OutputFormat::Json => "json"@,
                OutputFormat::Text => "txt"@,
            }),
    {
        match self {
            OutputFormat::Json => "json",
            OutputFormat::Text => "txt",
        }
    }
}

/// One labelled line: the label, the value and a newline.
pub open spec fn line(label: Seq<char>, value: Seq<char>) -> Seq<char> {
    label + value + "\n"@
}

fn push_line(out: &mut String, label: &str, value: &str)
    ensures
        final(out)@ == old(out)@ + line(label@, value@),
{
    out.append(label);
    out.append(value);
    out.append("\n");
}

impl Wallet {
    /// The plain-text layout of the record, one labelled field per line; the
    /// creation time is given as text.
    pub open spec fn spec_text(self, created: Seq<char>) -> Seq<char> {
        line("Wallet Type: "@, self.wallet_type@) + line("Network: "@, self.network@) + line(
            "Address: "@,
            self.address@,
        ) + line("Private Key: "@, self.private_key@) + match self.seed_phrase {
            Some(p) => line("Seed Phrase: "@, p@),
            None => Seq::empty(),
        } + line("Created: "@, created) + line("Support my work: "@, self.support_my_work@)
    }

    /// The plain-text layout of the record.
    pub fn to_text(&self, created: &str) -> (r: String)
        ensures
            r@ == self.spec_text(created@),
    {
        let mut out = String::new();
        push_line(&mut out, "Wallet Type: ", self.wallet_type.as_str());
        push_line(&mut out, "Network: ", self.network.as_str());
        push_line(&mut out, "Address: ", self.address.as_str());
        push_line(&mut out, "Private Key: ", self.private_key.as_str());
        match &self.seed_phrase {
            Some(p) => push_line(&mut out, "Seed Phrase: ", p.as_str()),
            None => {},
        }
        push_line(&mut out, "Created: ", created);
        push_line(&mut out, "Support my work: ", self.support_my_work.as_str());
        proof {
            assert(out@ =~= self.spec_text(created@));
        }
        out
    }
}

/// The 64-byte Solana keypair of a secret key: the secret, then its public key.
pub fn solana_keypair_bytes(secret: &[u8]) -> (r: Result<Vec<u8>, WalletError>)
    ensures
        r is Ok <==> secret@.len() == 32,
        r matches Ok(b) ==> b@ == secret@ + ed25519_point_of(secret@),
        r is Err ==> r == Err::<Vec<u8>, WalletError>(WalletError::KeyEncodingError),
{
    let public = match ed25519_public_key(secret) {
        Some(p) => p,
        None => return Err(WalletError::KeyEncodingError),
    };
    let mut out: Vec<u8> = Vec::new();
    append_bytes(&mut out, secret);
    append_bytes(&mut out, public.as_slice());
    Ok(out)
}

} // verus!
