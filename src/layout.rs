use vstd::prelude::*;
use vstd::string::*;
use crate::key::decimal_bytes;
use vstd::utf8::{decode_utf8, encode_utf8, encode_utf8_decode_utf8, is_char_boundary};

verus! {

/// `rel` joined onto `base` as Unix paths join: an absolute `rel` replaces
/// `base`; otherwise it is appended with one separator between them.
pub open spec fn join_path(base: Seq<char>, rel: Seq<char>) -> Seq<char> {
    if rel.len() > 0 && rel[0] == '/' {
        rel
    } else if base.len() == 0 {
        rel
    } else if base.last() == '/' {
        base + rel
    } else {
        base + seq!['/'] + rel
    }
}

/// The decimal digits of `n` as characters.
pub open spec fn decimal_chars(n: nat) -> Seq<char> {
    decimal_bytes(n).map_values(|b: u8| b as char)
}

/// The shard directory of a key: the characters of its first two bytes.
pub open spec fn shard_of(key: Seq<char>) -> Seq<char> {
    decode_utf8(encode_utf8(key).subrange(0, 2))
}

/// A key whose first two bytes end on a character boundary.
pub open spec fn is_shardable(key: Seq<char>) -> bool {
    encode_utf8(key).len() >= 2 && is_char_boundary(encode_utf8(key), 2)
}

/// The file name of an entry: `{key}_{width}x{height}.{format}`.
pub open spec fn file_name_of(key: Seq<char>, width: u32, height: u32, format: Seq<char>) -> Seq<
    char,
> {
    key + seq!['_'] + decimal_chars(width as nat) + seq!['x'] + decimal_chars(height as nat)
        + seq!['.'] + format
}

/// Where the entry for `key` and the transform parameters lives:
/// `{cache_root}/{key[0:2]}/{key}_{width}x{height}.{format}`.
pub open spec fn cache_path_of(
    cache_root: Seq<char>,
    key: Seq<char>,
    width: u32,
    height: u32,
    format: Seq<char>,
) -> Seq<char> {
    join_path(join_path(cache_root, shard_of(key)), file_name_of(key, width, height, format))
}

/// The one-character text of a decimal digit.
fn digit_text(d: u32) -> (r: &'static str)
    requires
        d < 10,
    ensures
        r@ == seq![(48 + d) as u8 as char],
{
    proof {
        reveal_strlit("0");
        reveal_strlit("1");
        reveal_strlit("2");
        reveal_strlit("3");
        reveal_strlit("4");
        reveal_strlit("5");
        reveal_strlit("6");
        reveal_strlit("7");
        reveal_strlit("8");
        reveal_strlit("9");
    }
    if d == 0 {
        "0"
    } else if d == 1 {
        "1"
    } else if d == 2 {
        "2"
    } else if d == 3 {
        "3"
    } else if d == 4 {
        "4"
    } else if d == 5 {
        "5"
    } else if d == 6 {
        "6"
    } else if d == 7 {
        "7"
    } else if d == 8 {
        "8"
    } else {
        "9"
    }
}

/// Appends the decimal digits of `n`.
fn append_decimal(s: &mut String, n: u32)
    ensures
        final(s)@ == old(s)@ + decimal_chars(n as nat),
    decreases n,
{
    if n >= 10 {
        append_decimal(s, n / 10);
    }
    s.append(digit_text(n % 10));
    proof {
        reveal_with_fuel(decimal_bytes, 2);
        assert(final(s)@ =~= old(s)@ + decimal_chars(n as nat));
    }
}

/// Appends `rel` to `base` as a path component.
fn join_onto(base: &mut String, rel: &str)
    ensures
        final(base)@ == join_path(old(base)@, rel@),
{
    proof {
        reveal_strlit("/");
    }
    let n = base.as_str().unicode_len();
    if rel.unicode_len() > 0 && rel.get_char(0) == '/' {
        *base = rel.to_owned();
    } else if n == 0 {
        *base = rel.to_owned();
    } else if base.as_str().get_char(n - 1) == '/' {
        base.append(rel);
    } else {
        base.append("/");
        base.append(rel);
    }
}

/// The path of the cache entry for `key` and the transform parameters:
/// `{cache_dir}/{key[0:2]}/{key}_{width}x{height}.{format}`.
/// Creating the shard directory is left to the caller.
pub fn cache_file_path(cache_dir: &str, key: &str, width: u32, height: u32, format: &str) -> (r:
    String)
    requires
        is_shardable(key@),
    ensures
        r@ == cache_path_of(cache_dir@, key@, width, height, format@),
{
    proof {
        reveal_strlit("_");
        reveal_strlit("x");
        reveal_strlit(".");
    }
    let mut path = cache_dir.to_owned();
    let (shard, _) = key.split_at(2);
    proof {
        encode_utf8_decode_utf8(shard@);
        assert(shard.spec_bytes() =~= encode_utf8(key@).subrange(0, 2));
    }
    join_onto(&mut path, shard);
    let mut name = key.to_owned();
    name.append("_");
    append_decimal(&mut name, width);
    name.append("x");
    append_decimal(&mut name, height);
    name.append(".");
    name.append(format);
    assert(name@ =~= file_name_of(key@, width, height, format@));
    join_onto(&mut path, name.as_str());
    path
}

proof fn lemma_ascii_shard(key: Seq<char>)
    requires
        key.len() >= 2,
        key[0] as u32 <= 0x7F,
        key[1] as u32 <= 0x7F,
    ensures
        shard_of(key) == key.subrange(0, 2),
{
    let pre = key.subrange(0, 2);
    let rest = key.subrange(2, key.len() as int);
    assert(key =~= pre + rest);
    assert(key.drop_first() =~= seq![key[1]] + rest);
    assert(key.drop_first().drop_first() =~= rest);
    assert(pre.drop_first() =~= seq![key[1]]);
    assert(pre.drop_first().drop_first() =~= Seq::<char>::empty());
    let c0 = key[0] as u32;
    let c1 = key[1] as u32;
    assert(c0 & 0x7F == c0) by (bit_vector)
        requires
            c0 <= 0x7F,
    ;
    assert(c1 & 0x7F == c1) by (bit_vector)
        requires
            c1 <= 0x7F,
    ;
    let two = seq![c0 as u8, c1 as u8];
    reveal_with_fuel(encode_utf8, 3);
    assert(encode_utf8(pre) =~= two);
    assert(encode_utf8(key) =~= two + encode_utf8(rest));
    assert(encode_utf8(key).subrange(0, 2) =~= encode_utf8(pre));
    encode_utf8_decode_utf8(pre);
}

/// Every entry lies directly in the shard directory named by the first two
/// characters of its key: its path starts with `{cache_root}/{key[0:2]}/`,
/// and what follows is its file name. This holds for keys whose first two
/// characters are ASCII and whose first is not a separator, as every cache
/// key's are; calling twice with the same arguments gives the same path.
pub proof fn law_entry_in_shard(
    cache_root: Seq<char>,
    key: Seq<char>,
    width: u32,
    height: u32,
    format: Seq<char>,
)
    requires
        key.len() >= 2,
        key[0] as u32 <= 0x7F,
        key[1] as u32 <= 0x7F,
        key[0] != '/',
        key[1] != '/',
    ensures
        shard_of(key) == key.subrange(0, 2),
        ({
            let dir = join_path(cache_root, key.subrange(0, 2));
            let path = cache_path_of(cache_root, key, width, height, format);
            &&& path.subrange(0, dir.len() as int + 1) == dir.push('/')
            &&& path.subrange(dir.len() as int + 1, path.len() as int) == file_name_of(
                key,
                width,
                height,
                format,
            )
        }),
{
    lemma_ascii_shard(key);
    let dir = join_path(cache_root, shard_of(key));
    let name = file_name_of(key, width, height, format);
    let path = cache_path_of(cache_root, key, width, height, format);
    assert(dir.len() > 0 && dir.last() == key[1]);
    assert(name[0] == key[0]);
    assert(path =~= dir + seq!['/'] + name);
    assert(path.subrange(0, dir.len() as int + 1) =~= dir.push('/'));
    assert(path.subrange(dir.len() as int + 1, path.len() as int) =~= name);
}

} // verus!
