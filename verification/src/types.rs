use vstd::prelude::*;
use vstd::string::StringSliceAdditionalSpecFns;

use crate::constants::{CCSID_UTF8, MQENC_NATIVE};
use crate::get_options::Mqmd2;
use crate::headers::{spec_ascii_of, TextEnc};
use crate::mqstr::{all_pad, MqStr, MqStrError};

verus! {

/// An MQ structure identifier (`StrucId`).
pub type StrucId = [u8; 4];

/// An MQ message format name (`Format`).
pub type Fmt = [u8; 8];

/// A message or correlation identifier.
pub type Identifier = [u8; 24];

/// The character set, the numeric encoding and the format name of message data.
#[derive(Clone, Copy, Debug)]
pub struct MessageFormat {
    pub ccsid: i32,
    pub encoding: i32,
    pub fmt: TextEnc<Fmt>,
}

/// The format name `MQFMT_NONE`: eight spaces.
pub fn mqfmt_none() -> (f: Fmt)
    ensures
        f@ == Seq::new(8, |i: int| 0x20u8),
{
    let f = [0x20u8; 8];
    assert(f@ =~= Seq::new(8, |i: int| 0x20u8));
    f
}

/// The format name `MQFMT_STRING`: `MQSTR` padded with spaces.
pub fn mqfmt_string() -> (f: Fmt)
    ensures
        f@ == seq![0x4Du8, 0x51u8, 0x53u8, 0x54u8, 0x52u8, 0x20u8, 0x20u8, 0x20u8],
{
    let f = [0x4Du8, 0x51u8, 0x53u8, 0x54u8, 0x52u8, 0x20u8, 0x20u8, 0x20u8];
    assert(f@ =~= seq![0x4Du8, 0x51u8, 0x53u8, 0x54u8, 0x52u8, 0x20u8, 0x20u8, 0x20u8]);
    f
}

/// UTF-8 data with the native encoding and no format name.
pub fn format_none() -> (f: MessageFormat)
    ensures
        f.ccsid == CCSID_UTF8,
        f.encoding == MQENC_NATIVE,
        f.fmt matches TextEnc::Ascii(n) && n@ == Seq::new(8, |i: int| 0x20u8),
{
    MessageFormat { ccsid: CCSID_UTF8, encoding: MQENC_NATIVE, fmt: TextEnc::Ascii(mqfmt_none()) }
}

/// The message format that a message descriptor describes. Message descriptor format names
/// are always ASCII.
pub open spec fn spec_format_of(md: Mqmd2) -> MessageFormat {
    MessageFormat { ccsid: md.coded_char_set_id, encoding: md.encoding, fmt: TextEnc::Ascii(md.format) }
}

impl MessageFormat {
    /// The message format described by a message descriptor.
    pub fn from_mqmd2(md: &Mqmd2) -> (f: Self)
        ensures
            f == spec_format_of(*md),
    {
        MessageFormat { ccsid: md.coded_char_set_id, encoding: md.encoding, fmt: TextEnc::Ascii(md.format) }
    }

    /// The default message descriptor with this CCSID, encoding and format name, the name
    /// in ASCII.
    pub fn into_mqmd2(&self) -> (md: Mqmd2)
        ensures
            md.is_default_with_format(self.ccsid, self.encoding, spec_ascii_of(self.fmt)),
    {
        let mut md = Mqmd2::default_value();
        md.coded_char_set_id = self.ccsid;
        md.encoding = self.encoding;
        md.format = match self.fmt.into_ascii() {
            TextEnc::Ascii(a) => a,
            TextEnc::Ebcdic(e) => e,
        };
        md
    }
}

/// A message format read back from the descriptor it was written into keeps its CCSID and
/// encoding, and its name in ASCII; a format whose name is in ASCII comes back unchanged.
pub proof fn law_format_descriptor_round_trip(f: MessageFormat, md: Mqmd2)
    requires
        md.is_default_with_format(f.ccsid, f.encoding, spec_ascii_of(f.fmt)),
    ensures
        spec_format_of(md).ccsid == f.ccsid,
        spec_format_of(md).encoding == f.encoding,
        spec_format_of(md).fmt matches TextEnc::Ascii(a) && a@ == spec_ascii_of(f.fmt),
        f.fmt is Ascii ==> spec_format_of(md) == f,
{
    if let TextEnc::Ascii(a) = f.fmt {
        assert(md.format@ == a@);
        assert(md.format == a);
    }
}

/// The lower case hexadecimal digit of `n`.
pub open spec fn hex_digit(n: int) -> char {
    if n == 0 {
        '0'
    } else if n == 1 {
        '1'
    } else if n == 2 {
        '2'
    } else if n == 3 {
        '3'
    } else if n == 4 {
        '4'
    } else if n == 5 {
        '5'
    } else if n == 6 {
        '6'
    } else if n == 7 {
        '7'
    } else if n == 8 {
        '8'
    } else if n == 9 {
        '9'
    } else if n == 10 {
        'a'
    } else if n == 11 {
        'b'
    } else if n == 12 {
        'c'
    } else if n == 13 {
        'd'
    } else if n == 14 {
        'e'
    } else {
        'f'
    }
}

/// Two lower case hexadecimal digits for each byte.
pub open spec fn hex_of(b: Seq<u8>) -> Seq<char>
    decreases b.len(),
{
    if b.len() == 0 {
        Seq::empty()
    } else {
        hex_of(b.drop_last()) + seq![hex_digit((b.last() / 16) as int), hex_digit((b.last() % 16) as int)]
    }
}

/// The display form of an identifier: `ID:` and the hexadecimal bytes.
pub open spec fn display_id(b: Seq<u8>) -> Seq<char> {
    seq!['I', 'D', ':'] + hex_of(b)
}

/// The one character string of the hexadecimal digit `n`.
fn hex_digit_str(n: u8) -> (r: &'static str)
    requires
        n < 16,
    ensures
        r@ == seq![hex_digit(n as int)],
{
    match n {
        0 => {
            proof {
                reveal_strlit("0");
            }
            "0"
        },
        1 => {
            proof {
                reveal_strlit("1");
            }
            "1"
        },
        2 => {
            proof {
                reveal_strlit("2");
            }
            "2"
        },
        3 => {
            proof {
                reveal_strlit("3");
            }
            "3"
        },
        4 => {
            proof {
                reveal_strlit("4");
            }
            "4"
        },
        5 => {
            proof {
                reveal_strlit("5");
            }
            "5"
        },
        6 => {
            proof {
                reveal_strlit("6");
            }
            "6"
        },
        7 => {
            proof {
                reveal_strlit("7");
            }
            "7"
        },
        8 => {
            proof {
                reveal_strlit("8");
            }
            "8"
        },
        9 => {
            proof {
                reveal_strlit("9");
            }
            "9"
        },
        10 => {
            proof {
                reveal_strlit("a");
            }
            "a"
        },
        11 => {
            proof {
                reveal_strlit("b");
            }
            "b"
        },
        12 => {
            proof {
                reveal_strlit("c");
            }
            "c"
        },
        13 => {
            proof {
                reveal_strlit("d");
            }
            "d"
        },
        14 => {
            proof {
                reveal_strlit("e");
            }
            "e"
        },
        _ => {
            proof {
                reveal_strlit("f");
            }
            "f"
        },
    }
}

/// Append the hexadecimal digits of `bytes` to `s`.
fn hex_fmt(s: &mut String, bytes: &[u8])
    ensures
        final(s)@ == old(s)@ + hex_of(bytes@),
{
    let mut i: usize = 0;
    while i < bytes.len()
        invariant
            i <= bytes@.len(),
            s@ == old(s)@ + hex_of(bytes@.take(i as int)),
        decreases bytes@.len() - i,
    {
        let b = bytes[i];
        let hi = b / 16;
        let lo = b % 16;
        s.append(hex_digit_str(hi));
        s.append(hex_digit_str(lo));
        assert(bytes@.take(i + 1).drop_last() =~= bytes@.take(i as int));
        assert(s@ =~= old(s)@ + hex_of(bytes@.take(i + 1)));
        i = i + 1;
    }
    assert(bytes@.take(bytes@.len() as int) =~= bytes@);
}

/// The display form `ID:<hex>` of an identifier.
pub fn display_id_string(id: &Identifier) -> (s: String)
    ensures
        s@ == display_id(id@),
{
    let mut s = String::from_str("ID:");
    proof {
        reveal_strlit("ID:");
    }
    hex_fmt(&mut s, id.as_slice());
    s
}

/// The debug form `<type>(ID:<hex>)` of an identifier.
fn debug_id_string(kind_name: &str, id: &Identifier) -> (s: String)
    ensures
        s@ == kind_name@ + seq!['('] + display_id(id@) + seq![')'],
{
    let mut s = String::from_str(kind_name);
    s.append("(");
    let d = display_id_string(id);
    s.append(d.as_str());
    s.append(")");
    proof {
        reveal_strlit("(");
        reveal_strlit(")");
    }
    assert(s@ =~= kind_name@ + seq!['('] + display_id(id@) + seq![')']);
    s
}

/// A correlation identifier.
#[derive(Clone, Copy, Debug)]
pub struct CorrelationId(pub Identifier);

/// A message identifier.
#[derive(Clone, Copy, Debug)]
pub struct MessageId(pub Identifier);

/// A group identifier.
#[derive(Clone, Copy, Debug)]
pub struct GroupId(pub Identifier);

impl CorrelationId {
    /// `ID:` followed by the identifier in hexadecimal.
    pub fn display_string(&self) -> (s: String)
        ensures
            s@ == display_id(self.0@),
    {
        display_id_string(&self.0)
    }

    /// `CorrelationId(ID:<hex>)`.
    pub fn debug_string(&self) -> (s: String)
        ensures
            s@ == "CorrelationId"@ + seq!['('] + display_id(self.0@) + seq![')'],
    {
        debug_id_string("CorrelationId", &self.0)
    }

    /// The message identifier with the same bytes.
    pub fn from_message_id(id: MessageId) -> (c: Self)
        ensures
            c.0 == id.0,
    {
        CorrelationId(id.0)
    }

    /// The identifiers hold the same bytes.
    pub fn eq_message_id(&self, other: &MessageId) -> (b: bool)
        ensures
            b == (self.0@ == other.0@),
    {
        crate::mqstr::bytes_eq(self.0.as_slice(), other.0.as_slice())
    }
}

impl MessageId {
    /// `ID:` followed by the identifier in hexadecimal.
    pub fn display_string(&self) -> (s: String)
        ensures
            s@ == display_id(self.0@),
    {
        display_id_string(&self.0)
    }

    /// `MessageId(ID:<hex>)`.
    pub fn debug_string(&self) -> (s: String)
        ensures
            s@ == "MessageId"@ + seq!['('] + display_id(self.0@) + seq![')'],
    {
        debug_id_string("MessageId", &self.0)
    }

    /// The correlation identifier with the same bytes.
    pub fn from_correlation_id(id: CorrelationId) -> (m: Self)
        ensures
            m.0 == id.0,
    {
        MessageId(id.0)
    }
}

impl GroupId {
    /// `ID:` followed by the identifier in hexadecimal.
    pub fn display_string(&self) -> (s: String)
        ensures
            s@ == display_id(self.0@),
    {
        display_id_string(&self.0)
    }

    /// `GroupId(ID:<hex>)`.
    pub fn debug_string(&self) -> (s: String)
        ensures
            s@ == "GroupId"@ + seq!['('] + display_id(self.0@) + seq![')'],
    {
        debug_id_string("GroupId", &self.0)
    }
}

/// A user identifier.
#[derive(Debug, Clone, Copy)]
pub struct UserIdentifier(pub MqStr<12>);

impl UserIdentifier {
    /// The user identifier of a 12 byte field, or `None` when the field is blank.
    pub fn new(source: [u8; 12]) -> (r: Option<Self>)
        ensures
            r is Some <==> !all_pad(source@),
            r matches Some(u) ==> u.0@ == source@,
    {
        let s = MqStr::from_mqchar(source);
        if s.has_value() {
            Some(UserIdentifier(s))
        } else {
            None
        }
    }
}

/// A connection name.
#[derive(Debug, Clone, Copy)]
pub struct ConnectionName(pub MqStr<264>);

/// A channel name.
#[derive(Debug, Clone, Copy)]
pub struct ChannelName(pub MqStr<20>);

/// The name of an object: a queue, a queue manager, a topic.
pub type ObjectName = MqStr<48>;

/// A queue name.
#[derive(Debug, Clone, Copy)]
pub struct QueueName(pub MqStr<48>);

/// A queue manager name.
#[derive(Debug, Clone, Copy)]
pub struct QueueManagerName(pub MqStr<48>);

/// A reply-to queue manager name.
#[derive(Debug, Clone, Copy)]
pub struct ReplyToQueueManagerName(pub MqStr<48>);

/// A reply-to queue name.
#[derive(Debug, Clone, Copy)]
pub struct ReplyToQueueName(pub MqStr<48>);

/// A TLS cipher specification.
#[derive(Debug, Clone, Copy)]
pub struct CipherSpec(pub MqStr<32>);

/// A key repository location.
#[derive(Debug, Clone, Copy)]
pub struct KeyRepo(pub MqStr<256>);

/// An application name.
#[derive(Debug, Clone, Copy)]
pub struct ApplName(pub MqStr<28>);

/// The date a message was put.
#[derive(Debug, Clone, Copy)]
pub struct PutDate(pub MqStr<8>);

/// The time a message was put.
#[derive(Debug, Clone, Copy)]
pub struct PutTime(pub MqStr<8>);

/// Application identity data.
#[derive(Debug, Clone, Copy)]
pub struct ApplIdentityData(pub MqStr<32>);

/// Application origin data.
#[derive(Debug, Clone, Copy)]
pub struct ApplOriginData(pub MqStr<4>);

/// Cryptographic hardware configuration.
#[derive(Debug, Clone, Copy)]
pub struct CryptoHardware(pub MqStr<256>);

/// A certificate label.
#[derive(Debug, Clone, Copy)]
pub struct CertificateLabel(pub MqStr<64>);

/// An accounting token.
#[derive(Debug, Clone, Copy)]
pub struct AccountingToken(pub [u8; 32]);

/// A message token.
#[derive(Debug, Clone, Copy)]
pub struct MsgToken(pub [u8; 16]);

/// The password of a key repository.
#[derive(Debug, Clone, Copy)]
pub struct KeyRepoPassword<T>(pub T);

impl<'a> KeyRepoPassword<crate::connect_options::ProtectedSecret<&'a str>> {
    /// A key repository password protected from display.
    pub fn new(password: &'a str) -> (r: Self)
        ensures
            r.0.0 == password,
    {
        KeyRepoPassword(crate::connect_options::ProtectedSecret::new(password))
    }
}

impl QueueManagerName {
    /// The queue manager name of a string, padded with spaces.
    pub fn from_str(s: &str) -> (r: Result<Self, MqStrError>)
        ensures
            s.spec_bytes().len() <= 48 ==> (r matches Ok(q) && q.0@ == crate::mqstr::space_padded(
                s.spec_bytes(),
                48,
            )),
            s.spec_bytes().len() > 48 ==> r is Err,
    {
        match MqStr::from_str(s) {
            Ok(v) => Ok(QueueManagerName(v)),
            Err(e) => Err(e),
        }
    }

    /// The reply-to queue manager name with the same bytes.
    pub fn from_reply_to(name: ReplyToQueueManagerName) -> (r: Self)
        ensures
            r.0@ == name.0@,
    {
        QueueManagerName(name.0)
    }
}

impl QueueName {
    /// The queue name of a string, padded with spaces.
    pub fn from_str(s: &str) -> (r: Result<Self, MqStrError>)
        ensures
            s.spec_bytes().len() <= 48 ==> (r matches Ok(q) && q.0@ == crate::mqstr::space_padded(
                s.spec_bytes(),
                48,
            )),
            s.spec_bytes().len() > 48 ==> r is Err,
    {
        match MqStr::from_str(s) {
            Ok(v) => Ok(QueueName(v)),
            Err(e) => Err(e),
        }
    }
}

impl ChannelName {
    /// The channel name of a string, padded with spaces.
    pub fn from_str(s: &str) -> (r: Result<Self, MqStrError>)
        ensures
            s.spec_bytes().len() <= 20 ==> (r matches Ok(q) && q.0@ == crate::mqstr::space_padded(
                s.spec_bytes(),
                20,
            )),
            s.spec_bytes().len() > 20 ==> r is Err,
    {
        match MqStr::from_str(s) {
            Ok(v) => Ok(ChannelName(v)),
            Err(e) => Err(e),
        }
    }
}

impl ConnectionName {
    /// The connection name of a string, padded with spaces.
    pub fn from_str(s: &str) -> (r: Result<Self, MqStrError>)
        ensures
            s.spec_bytes().len() <= 264 ==> (r matches Ok(q) && q.0@ == crate::mqstr::space_padded(
                s.spec_bytes(),
                264,
            )),
            s.spec_bytes().len() > 264 ==> r is Err,
    {
        match MqStr::from_str(s) {
            Ok(v) => Ok(ConnectionName(v)),
            Err(e) => Err(e),
        }
    }
}

impl CipherSpec {
    /// The cipher specification of a string, padded with spaces.
    pub fn from_str(s: &str) -> (r: Result<Self, MqStrError>)
        ensures
            s.spec_bytes().len() <= 32 ==> (r matches Ok(q) && q.0@ == crate::mqstr::space_padded(
                s.spec_bytes(),
                32,
            )),
            s.spec_bytes().len() > 32 ==> r is Err,
    {
        match MqStr::from_str(s) {
            Ok(v) => Ok(CipherSpec(v)),
            Err(e) => Err(e),
        }
    }
}

impl ApplName {
    /// The application name of a string, padded with spaces.
    pub fn from_str(s: &str) -> (r: Result<Self, MqStrError>)
        ensures
            s.spec_bytes().len() <= 28 ==> (r matches Ok(q) && q.0@ == crate::mqstr::space_padded(
                s.spec_bytes(),
                28,
            )),
            s.spec_bytes().len() > 28 ==> r is Err,
    {
        match MqStr::from_str(s) {
            Ok(v) => Ok(ApplName(v)),
            Err(e) => Err(e),
        }
    }
}

impl KeyRepo {
    /// The key repository of a string, padded with spaces.
    pub fn from_str(s: &str) -> (r: Result<Self, MqStrError>)
        ensures
            s.spec_bytes().len() <= 256 ==> (r matches Ok(q) && q.0@ == crate::mqstr::space_padded(
                s.spec_bytes(),
                256,
            )),
            s.spec_bytes().len() > 256 ==> r is Err,
    {
        match MqStr::from_str(s) {
            Ok(v) => Ok(KeyRepo(v)),
            Err(e) => Err(e),
        }
    }
}

impl CertificateLabel {
    /// The certificate label of a string, padded with spaces.
    pub fn from_str(s: &str) -> (r: Result<Self, MqStrError>)
        ensures
            s.spec_bytes().len() <= 64 ==> (r matches Ok(q) && q.0@ == crate::mqstr::space_padded(
                s.spec_bytes(),
                64,
            )),
            s.spec_bytes().len() > 64 ==> r is Err,
    {
        match MqStr::from_str(s) {
            Ok(v) => Ok(CertificateLabel(v)),
            Err(e) => Err(e),
        }
    }
}

impl CryptoHardware {
    /// The cryptographic hardware configuration of a string, padded with spaces.
    pub fn from_str(s: &str) -> (r: Result<Self, MqStrError>)
        ensures
            s.spec_bytes().len() <= 256 ==> (r matches Ok(q) && q.0@ == crate::mqstr::space_padded(
                s.spec_bytes(),
                256,
            )),
            s.spec_bytes().len() > 256 ==> r is Err,
    {
        match MqStr::from_str(s) {
            Ok(v) => Ok(CryptoHardware(v)),
            Err(e) => Err(e),
        }
    }
}

} // verus!
