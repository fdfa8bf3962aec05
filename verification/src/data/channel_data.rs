//! Payloads of custom plugin channels, and the one channel the game itself uses.

use vstd::prelude::*;
use crate::data::codec::{
    lemma_string_roundtrip, string_error_message, proto_string, proto_string_fits, push_string, read_string, string_decode, string_len,
    StringDecodeError,
};
use crate::data::ident::Ident;

verus! {

/// The name of the channel on which a client declares its brand.
pub open spec fn brand_channel() -> Seq<char> {
    "minecraft:brand"@
}

fn brand_channel_string() -> (r: String)
    ensures
        r@ == brand_channel(),
        vstd::utf8::encode_utf8(r@).len() == 15,
{
    let name = "minecraft:brand";
    proof {
        reveal_strlit("minecraft:brand");
        vstd::string::is_ascii_spec_bytes(name);
        assert(vstd::string::is_ascii(name));
    }
    name.to_owned()
}

/// A message on a plugin channel.
pub enum ChannelData {
    /// The client's brand, on the brand channel.
    Brand { brand: String },
    /// Any other channel, with its bytes as they came.
    Custom { channel: Ident, data: Vec<u8> },
}

/// What a channel message holds.
pub enum ChannelModel {
    Brand { brand: Seq<char> },
    Custom { channel: Seq<char>, data: Seq<u8> },
}

impl View for ChannelData {
    type V = ChannelModel;

    open spec fn view(&self) -> ChannelModel {
        match self {
            ChannelData::Brand { brand } => ChannelModel::Brand { brand: brand@ },
            ChannelData::Custom { channel, data } => ChannelModel::Custom {
                channel: channel@,
                data: data@,
            },
        }
    }
}

/// Why a channel message could not be read.
#[derive(Clone, Copy, PartialEq, Eq, Structural, Debug)]
pub enum ChannelDataDecodeError {
    /// The channel name could not be read.
    Channel(StringDecodeError),
    /// The brand on the brand channel could not be read.
    Brand(StringDecodeError),
}

impl ChannelDataDecodeError {
    /// The message describing the error: which part failed, then why.
    pub fn to_string(&self) -> (r: String)
        ensures
            r@ == match *self {
                ChannelDataDecodeError::Channel(e) => "channel "@ + string_error_message(e),
                ChannelDataDecodeError::Brand(e) => "brand "@ + string_error_message(e),
            },
    {
        let (mut s, e) = match self {
            ChannelDataDecodeError::Channel(e) => ("channel ".to_owned(), e),
            ChannelDataDecodeError::Brand(e) => ("brand ".to_owned(), e),
        };
        let m = e.to_string();
        s.push_str(m.as_str());
        s
    }
}

/// Reading a channel message from `s`: the message and the number of bytes it took. A
/// message on another channel than the brand channel takes all the bytes that follow.
pub open spec fn channel_decode(s: Seq<u8>) -> Result<(ChannelModel, nat), ChannelDataDecodeError> {
    match string_decode(s) {
        Result::Err(e) => Result::Err(ChannelDataDecodeError::Channel(e)),
        Result::Ok((channel, k)) => if channel == brand_channel() {
            match string_decode(s.skip(k as int)) {
                Result::Err(e) => Result::Err(ChannelDataDecodeError::Brand(e)),
                Result::Ok((brand, m)) => Result::Ok((ChannelModel::Brand { brand }, k + m)),
            }
        } else {
            Result::Ok((ChannelModel::Custom { channel, data: s.skip(k as int) }, s.len()))
        },
    }
}

/// The encoded form of a channel message.
pub open spec fn channel_encoding(m: ChannelModel) -> Seq<u8> {
    match m {
        ChannelModel::Brand { brand } => proto_string(brand_channel()) + proto_string(brand),
        ChannelModel::Custom { channel, data } => proto_string(channel) + data,
    }
}

impl ChannelData {
    /// Whether the channel name and the brand can be encoded.
    pub open spec fn encodable(&self) -> bool {
        match self {
            ChannelData::Brand { brand } => proto_string_fits(brand@),
            ChannelData::Custom { channel, .. } => proto_string_fits(channel@),
        }
    }

    /// Reads a channel message from `buf` at `pos`: the message and the number of bytes
    /// it took.
    pub fn decode(buf: &[u8], pos: usize) -> (r: Result<(ChannelData, usize), ChannelDataDecodeError>)
        requires
            pos <= buf@.len(),
        ensures
            match channel_decode(buf@.skip(pos as int)) {
                Result::Ok((m, n)) => r matches Result::Ok((d, k)) && d@ == m && k == n,
                Result::Err(e) => r == Result::<(ChannelData, usize), ChannelDataDecodeError>::Err(e),
            },
    {
        let (channel, k) = match read_string(buf, pos) {
            Ok(x) => x,
            Err(e) => {
                return Err(ChannelDataDecodeError::Channel(e));
            },
        };
        let len = buf.len();
        let brand_name = brand_channel_string();
        if channel == brand_name {
            assert(buf@.skip(pos as int).skip(k as int) =~= buf@.skip(pos + k));
            match read_string(buf, pos + k) {
                Ok((brand, m)) => Ok((ChannelData::Brand { brand }, k + m)),
                Err(e) => Err(ChannelDataDecodeError::Brand(e)),
            }
        } else {
            let mut data: Vec<u8> = Vec::new();
            data.extend_from_slice(&buf[pos + k..len]);
            assert(data@ =~= buf@.skip(pos as int).skip(k as int));
            Ok((ChannelData::Custom { channel: Ident { id: channel }, data }, len - pos))
        }
    }

    /// The number of bytes the encoded message takes.
    pub fn encode_len(&self) -> (n: usize)
        requires
            self.encodable(),
            match self {
                ChannelData::Brand { brand } => vstd::utf8::encode_utf8(brand@).len() + 40
                    <= usize::MAX,
                ChannelData::Custom { channel, data } => vstd::utf8::encode_utf8(channel@).len()
                    + data@.len() + 5 <= usize::MAX,
            },
        ensures
            n == channel_encoding(self@).len(),
    {
        match self {
            ChannelData::Brand { brand } => {
                let name = brand_channel_string();
                string_len(name.as_str()) + string_len(brand.as_str())
            },
            ChannelData::Custom { channel, data } => string_len(channel.as_str()) + data.len(),
        }
    }

    /// Appends the encoded message: the channel name, then the brand or the bytes.
    pub fn encode(&self, out: &mut Vec<u8>)
        requires
            self.encodable(),
        ensures
            final(out)@ == old(out)@ + channel_encoding(self@),
    {
        match self {
            ChannelData::Brand { brand } => {
                let name = brand_channel_string();
                push_string(out, name.as_str());
                push_string(out, brand.as_str());
            },
            ChannelData::Custom { channel, data } => {
                push_string(out, channel.as_str());
                out.extend_from_slice(data.as_slice());
            },
        }
        assert(final(out)@ =~= old(out)@ + channel_encoding(self@));
    }
}

/// A brand message reads back from its encoding, whatever follows it.
pub proof fn lemma_brand_roundtrip(brand: Seq<char>, rest: Seq<u8>)
    requires
        proto_string_fits(brand),
    ensures
        channel_decode(channel_encoding(ChannelModel::Brand { brand }) + rest) == Result::<
            (ChannelModel, nat),
            ChannelDataDecodeError,
        >::Ok((ChannelModel::Brand { brand }, channel_encoding(ChannelModel::Brand { brand }).len())),
{
    let name = brand_channel();
    let enc = channel_encoding(ChannelModel::Brand { brand });
    let s = enc + rest;
    assert(proto_string_fits(name)) by {
        reveal_strlit("minecraft:brand");
        assert(vstd::utf8::is_ascii_chars(name));
        vstd::utf8::is_ascii_chars_encode_utf8(name);
    }
    assert(s =~= proto_string(name) + (proto_string(brand) + rest));
    lemma_string_roundtrip(name, proto_string(brand) + rest);
    let k = proto_string(name).len();
    assert(s.skip(k as int) =~= proto_string(brand) + rest);
    lemma_string_roundtrip(brand, rest);
}

/// A message on any other channel than the brand channel reads back from its encoding,
/// its bytes being everything after the channel name.
pub proof fn lemma_custom_roundtrip(channel: Seq<char>, data: Seq<u8>)
    requires
        proto_string_fits(channel),
        channel != brand_channel(),
    ensures
        channel_decode(channel_encoding(ChannelModel::Custom { channel, data })) == Result::<
            (ChannelModel, nat),
            ChannelDataDecodeError,
        >::Ok(
            (
                ChannelModel::Custom { channel, data },
                channel_encoding(ChannelModel::Custom { channel, data }).len(),
            ),
        ),
{
    let s = channel_encoding(ChannelModel::Custom { channel, data });
    lemma_string_roundtrip(channel, data);
    let k = proto_string(channel).len();
    assert(s.skip(k as int) =~= data);
}

} // verus!
