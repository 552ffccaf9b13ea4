//! The decisions of the graphical front-end: a state, the messages it
//! receives, and the outside work that each message asks for.
use vstd::prelude::*;

use crate::chain::WalletType;
use crate::wallet::Wallet;

verus! {

/// What the front-end receives: user input and the results of earlier work.
pub enum Message {
    GenerateWallet,
    WalletGenerated(Result<Wallet, String>),
    WalletTypeChanged(WalletType),
    EncryptChanged(bool),
    PasswordChanged(String),
    ClearWallet,
    ShowAddressQR,
    ShowPrivateKeyQR,
    ShowSeedPhraseQR,
    CopyAddress,
    CopyPrivateKey,
    CopySeedPhrase,
    CloseQRWindow,
    GenerateSeedPhrase,
    SaveWallet,
    ImportWallet,
    BatchGenerate,
    ImportSeedPhraseChanged(String),
    BatchCountChanged(String),
    SaveFormatChanged(String),
    BatchStatusUpdated(String),
    CopySupportWork,
}

/// The outside work that a message asks the front-end to perform.
pub enum Action {
    Nothing,
    Generate { wallet_type: WalletType, encrypt: bool, password: Option<String>, include_seed_phrase: bool },
    CopyToClipboard(String),
    Save { format: String },
    Import { chain: String, phrase: String },
    Batch { chain: String, count: u32, format: String, include_seed_phrase: bool },
}

/// The state of the front-end.
pub struct WalletGenerator {
    pub wallet: Option<Wallet>,
    pub wallet_type: WalletType,
    pub encrypt: bool,
    pub password: String,
    pub generating: bool,
    pub qr_window_open: bool,
    pub qr_data: Option<String>,
    pub qr_title: Option<String>,
    pub include_seed_phrase: bool,
    pub import_seed_phrase: String,
    pub batch_count: String,
    pub save_format: String,
    pub saving: bool,
    pub batch_status_message: Option<String>,
}

/// Whether `c` is an ASCII decimal digit.
pub open spec fn is_digit(c: char) -> bool {
    '0' <= c <= '9'
}

/// The value of a string of decimal digits.
pub open spec fn digits_value(s: Seq<char>) -> nat
    decreases s.len(),
{
    if s.len() == 0 {
        0
    } else {
        digits_value(s.drop_last()) * 10 + (s.last() as int - '0' as int) as nat
    }
}

/// The digits of a count: the text without one leading `+`.
pub open spec fn count_digits(s: Seq<char>) -> Seq<char> {
    if s.len() > 0 && s[0] == '+' {
        s.drop_first()
    } else {
        s
    }
}

/// Every character is a decimal digit.
pub open spec fn all_digits(s: Seq<char>) -> bool {
    forall|i: int| 0 <= i < s.len() ==> is_digit(#[trigger] s[i])
}

/// A count as `u32` parses it: an optional `+`, then at least one digit, no overflow.
pub open spec fn parsed_count(s: Seq<char>) -> Option<u32> {
    let body = count_digits(s);
    if body.len() > 0 && all_digits(body) && digits_value(body) <= u32::MAX {
        Some(digits_value(body) as u32)
    } else {
        None
    }
}

/// The batch size typed by the user, or 1 where it does not parse.
pub fn batch_count_of(text: &str) -> (r: u32)
    ensures
        r == (match parsed_count(text@) {
            Some(n) => n,
            None => 1u32,
        }),
{
    let n = text.unicode_len();
    let mut start: usize = 0;
    if n > 0 && text.get_char(0) == '+' {
        start = 1;
    }
    let ghost body = text@.subrange(start as int, n as int);
    proof {
        if start == 1 {
            assert(body =~= text@.drop_first());
        } else {
            assert(body =~= text@);
        }
    }
    if start == n {
        return 1;
    }
    let mut value: u64 = 0;
    let mut i: usize = start;
    while i < n
        invariant
            n == text@.len(),
            start <= i <= n,
            body == text@.subrange(start as int, n as int),
            start <= 1,
            start == 1 <==> (n > 0 && text@[0] == '+'),
            body == count_digits(text@),
            forall|j: int| start <= j < i ==> is_digit(#[trigger] text@[j]),
            value == digits_value(text@.subrange(start as int, i as int)),
            value <= u32::MAX,
        decreases n - i,
    {
        let c = text.get_char(i);
        if !('0' <= c && c <= '9') {
            proof {
                assert(body[i - start] == c);
                assert(!is_digit(body[i - start]));
                assert(!all_digits(body));
            }
            return 1;
        }
        let next = value * 10 + (c as u64 - '0' as u64);
        proof {
            let pre = text@.subrange(start as int, i + 1);
            assert(pre.drop_last() =~= text@.subrange(start as int, i as int));
        }
        if next > u32::MAX as u64 {
            proof {
                assert(body.subrange(0, i + 1 - start) =~= text@.subrange(start as int, i + 1));
                if all_digits(body) {
                    lemma_prefix_value_le(body, i + 1 - start);
                }
            }
            return 1;
        }
        value = next;
        i = i + 1;
    }
    proof {
        assert(text@.subrange(start as int, n as int) =~= body);
        assert forall|j: int| 0 <= j < body.len() implies is_digit(#[trigger] body[j]) by {
            assert(body[j] == text@[start + j]);
        }
        assert(all_digits(body));
    }
    value as u32
}

/// A prefix of a digit string never has a larger value than the whole.
proof fn lemma_prefix_value_le(s: Seq<char>, k: int)
    requires
        0 <= k <= s.len(),
        all_digits(s),
    ensures
        digits_value(s.subrange(0, k)) <= digits_value(s),
    decreases s.len() - k,
{
    if k < s.len() {
        lemma_prefix_value_le(s, k + 1);
        let p = s.subrange(0, k + 1);
        assert(p.drop_last() =~= s.subrange(0, k));
        assert(is_digit(s[k]));
    } else {
        assert(s.subrange(0, k) =~= s);
    }
}

impl WalletGenerator {
    /// The state at start-up.
    pub fn new() -> (r: Self)
        ensures
            r.wallet is None,
            r.wallet_type == WalletType::Eth,
            !r.encrypt && !r.generating && !r.qr_window_open && !r.include_seed_phrase && !r.saving,
            r.password@ == Seq::<char>::empty(),
            r.batch_count@ == "1"@,
            r.save_format@ == "json"@,
    {
        WalletGenerator {
            wallet: None,
            wallet_type: WalletType::Eth,
            encrypt: false,
            password: String::new(),
            generating: false,
            qr_window_open: false,
            qr_data: None,
            qr_title: None,
            include_seed_phrase: false,
            import_seed_phrase: String::new(),
            batch_count: "1".to_owned(),
            save_format: "json".to_owned(),
            saving: false,
            batch_status_message: None,
        }
    }

    /// The window title: the QR title while a code is shown.
    pub fn title(&self) -> (r: String)
        ensures
            r@ == (if self.qr_window_open {
                match self.qr_title {
                    Some(t) => t@,
                    None => "QR Code"@,
                }
            } else {
                "Rust Wallet Generator"@
            }),
    {
        if self.qr_window_open {
            match &self.qr_title {
                Some(t) => t.clone(),
                None => "QR Code".to_owned(),
            }
        } else {
            "Rust Wallet Generator".to_owned()
        }
    }

    fn show_qr(&mut self, data: String, title: &str)
        ensures
            *final(self) == (WalletGenerator {
                qr_window_open: true,
                qr_data: Some(data),
                qr_title: Some(final(self).qr_title->Some_0),
                ..*old(self)
            }),
            final(self).qr_title matches Some(t) && t@ == title@,
    {
        self.qr_window_open = true;
        self.qr_data = Some(data);
        self.qr_title = Some(title.to_owned());
    }

    /// The next state for a message, and the outside work it asks for.
    pub fn update(&mut self, message: Message) -> (r: Action)
        ensures
            match message {
                Message::GenerateWallet => {
                    &&& *final(self) == (WalletGenerator { generating: true, ..*old(self) })
                    &&& r == (Action::Generate {
                        wallet_type: old(self).wallet_type,
                        encrypt: old(self).encrypt,
                        password: if old(self).encrypt && old(self).password@.len() > 0 {
                            Some(old(self).password)
                        } else {
                            None
                        },
                        include_seed_phrase: old(self).include_seed_phrase,
                    })
                },
                Message::WalletGenerated(result) => {
                    &&& *final(self) == (WalletGenerator {
                        generating: false,
                        wallet: match result {
                            Ok(w) => Some(w),
                            Err(_) => None,
                        },
                        ..*old(self)
                    })
                    &&& r is Nothing
                },
                Message::WalletTypeChanged(t) => *final(self) == (WalletGenerator { wallet_type: t, ..*old(self) }) && r is Nothing,
                Message::EncryptChanged(e) => *final(self) == (WalletGenerator { encrypt: e, ..*old(self) }) && r is Nothing,
                Message::PasswordChanged(p) => *final(self) == (WalletGenerator { password: p, ..*old(self) }) && r is Nothing,
                Message::ClearWallet => *final(self) == (WalletGenerator { wallet: None, ..*old(self) }) && r is Nothing,
                Message::ShowAddressQR => r is Nothing && match old(self).wallet {
                    Some(w) => final(self).qr_window_open && final(self).qr_data == Some(w.address)
                        && (final(self).qr_title matches Some(t) && t@ == "Address QR Code"@),
                    None => *final(self) == *old(self),
                },
                Message::ShowPrivateKeyQR => r is Nothing && match old(self).wallet {
                    Some(w) => final(self).qr_window_open && final(self).qr_data == Some(w.private_key)
                        && (final(self).qr_title matches Some(t) && t@ == "Private Key QR Code"@),
                    None => *final(self) == *old(self),
                },
                Message::ShowSeedPhraseQR => r is Nothing && match old(self).wallet {
                    Some(w) => match w.seed_phrase {
                        Some(p) => final(self).qr_window_open && final(self).qr_data == Some(p)
                            && (final(self).qr_title matches Some(t) && t@ == "Seed Phrase QR Code"@),
                        None => *final(self) == *old(self),
                    },
                    None => *final(self) == *old(self),
                },
                Message::CopyAddress => *final(self) == *old(self) && r == match old(self).wallet {
                    Some(w) => Action::CopyToClipboard(w.address),
                    None => Action::Nothing,
                },
                Message::CopyPrivateKey => *final(self) == *old(self) && r == match old(self).wallet {
                    Some(w) => Action::CopyToClipboard(w.private_key),
                    None => Action::Nothing,
                },
                Message::CopySeedPhrase => *final(self) == *old(self) && r == match old(self).wallet {
                    Some(w) => match w.seed_phrase {
                        Some(p) => Action::CopyToClipboard(p),
                        None => Action::Nothing,
                    },
                    None => Action::Nothing,
                },
                Message::CopySupportWork => *final(self) == *old(self) && r == match old(self).wallet {
                    Some(w) => Action::CopyToClipboard(w.support_my_work),
                    None => Action::Nothing,
                },
                Message::CloseQRWindow => *final(self) == (WalletGenerator {
                    qr_window_open: false,
                    qr_data: None,
                    qr_title: None,
                    ..*old(self)
                }) && r is Nothing,
                Message::GenerateSeedPhrase => *final(self) == (WalletGenerator {
                    include_seed_phrase: !old(self).include_seed_phrase,
                    ..*old(self)
                }) && r is Nothing,
                Message::SaveWallet => if old(self).wallet is Some {
                    *final(self) == (WalletGenerator { saving: true, ..*old(self) })
                        && r == (Action::Save { format: old(self).save_format })
                } else {
                    *final(self) == *old(self) && r is Nothing
                },
                Message::ImportWallet => *final(self) == *old(self) && if old(self).import_seed_phrase@.len() > 0 {
                    r matches Action::Import { chain, phrase } && chain@ == old(self).wallet_type.spec_name()
                        && phrase == old(self).import_seed_phrase
                } else {
                    r is Nothing
                },
                Message::BatchGenerate => {
                    &&& *final(self) == (WalletGenerator { batch_status_message: None, ..*old(self) })
                    &&& r matches Action::Batch { chain, count, format, include_seed_phrase }
                    &&& chain@ == old(self).wallet_type.spec_name()
                    &&& count == match parsed_count(old(self).batch_count@) {
                        Some(n) => n,
                        None => 1u32,
                    }
                    &&& format == old(self).save_format
                    &&& include_seed_phrase == old(self).include_seed_phrase
                },
                Message::ImportSeedPhraseChanged(p) => *final(self) == (WalletGenerator { import_seed_phrase: p, ..*old(self) }) && r is Nothing,
                Message::BatchCountChanged(c) => *final(self) == (WalletGenerator { batch_count: c, ..*old(self) }) && r is Nothing,
                Message::SaveFormatChanged(f) => *final(self) == (WalletGenerator { save_format: f, ..*old(self) }) && r is Nothing,
                Message::BatchStatusUpdated(m) => *final(self) == (WalletGenerator { batch_status_message: Some(m), ..*old(self) }) && r is Nothing,
            },
    {
        match message {
            Message::GenerateWallet => {
                self.generating = true;
                let password = if self.encrypt && self.password.as_str().unicode_len() > 0 {
                    Some(self.password.clone())
                } else {
                    None
                };
                Action::Generate {
                    wallet_type: self.wallet_type,
                    encrypt: self.encrypt,
                    password,
                    include_seed_phrase: self.include_seed_phrase,
                }
            },
            Message::WalletGenerated(result) => {
                self.generating = false;
                self.wallet = match result {
                    Ok(w) => Some(w),
                    Err(_) => None,
                };
                Action::Nothing
            },
            Message::WalletTypeChanged(t) => {
                self.wallet_type = t;
                Action::Nothing
            },
            Message::EncryptChanged(e) => {
                self.encrypt = e;
                Action::Nothing
            },
            Message::PasswordChanged(p) => {
                self.password = p;
                Action::Nothing
            },
            Message::ClearWallet => {
                self.wallet = None;
                Action::Nothing
            },
            Message::ShowAddressQR => {
                let data = match &self.wallet {
                    Some(w) => Some(w.address.clone()),
                    None => None,
                };
                if let Some(d) = data {
                    self.show_qr(d, "Address QR Code");
                }
                Action::Nothing
            },
            Message::ShowPrivateKeyQR => {
                let data = match &self.wallet {
                    Some(w) => Some(w.private_key.clone()),
                    None => None,
                };
                if let Some(d) = data {
                    self.show_qr(d, "Private Key QR Code");
                }
                Action::Nothing
            },
            Message::ShowSeedPhraseQR => {
                let data = match &self.wallet {
                    Some(w) => match &w.seed_phrase {
                        Some(p) => Some(p.clone()),
                        None => None,
                    },
                    None => None,
                };
                if let Some(d) = data {
                    self.show_qr(d, "Seed Phrase QR Code");
                }
                Action::Nothing
            },
            Message::CopyAddress => match &self.wallet {
                Some(w) => Action::CopyToClipboard(w.address.clone()),
                None => Action::Nothing,
            },
            Message::CopyPrivateKey => match &self.wallet {
                Some(w) => Action::CopyToClipboard(w.private_key.clone()),
                None => Action::Nothing,
            },
            Message::CopySeedPhrase => match &self.wallet {
                Some(w) => match &w.seed_phrase {
                    Some(p) => Action::CopyToClipboard(p.clone()),
                    None => Action::Nothing,
                },
                None => Action::Nothing,
            },
            Message::CopySupportWork => match &self.wallet {
                Some(w) => Action::CopyToClipboard(w.support_my_work.clone()),
                None => Action::Nothing,
            },
            Message::CloseQRWindow => {
                self.qr_window_open = false;
                self.qr_data = None;
                self.qr_title = None;
                Action::Nothing
            },
            Message::GenerateSeedPhrase => {
                self.include_seed_phrase = !self.include_seed_phrase;
                Action::Nothing
            },
            Message::SaveWallet => {
                if self.wallet.is_some() {
                    self.saving = true;
                    Action::Save { format: self.save_format.clone() }
                } else {
                    Action::Nothing
                }
            },
            Message::ImportWallet => {
                if self.import_seed_phrase.as_str().unicode_len() > 0 {
                    Action::Import {
                        chain: self.wallet_type.to_string(),
                        phrase: self.import_seed_phrase.clone(),
                    }
                } else {
                    Action::Nothing
                }
            },
            Message::BatchGenerate => {
                self.batch_status_message = None;
                Action::Batch {
                    chain: self.wallet_type.to_string(),
                    count: batch_count_of(self.batch_count.as_str()),
                    format: self.save_format.clone(),
                    include_seed_phrase: self.include_seed_phrase,
                }
            },
            Message::ImportSeedPhraseChanged(p) => {
                self.import_seed_phrase = p;
                Action::Nothing
            },
            Message::BatchCountChanged(c) => {
                self.batch_count = c;
                Action::Nothing
            },
            Message::SaveFormatChanged(f) => {
                self.save_format = f;
                Action::Nothing
            },
            Message::BatchStatusUpdated(m) => {
                self.batch_status_message = Some(m);
                Action::Nothing
            },
        }
    }
}

} // verus!
