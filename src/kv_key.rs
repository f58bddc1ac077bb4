use vstd::prelude::*;
use vstd::string::StrSliceExecFns;
use vstd::string::StringExecFns;

use crate::hex::{decode_hex, encode_hex, hex_decode, hex_encode, hex_value, lemma_hex_round_trip, push_char};

verus! {

/// Separates the path of a key from its hexadecimal bytes.
pub const KV_PATH_KEY_DELIMITER: char = '/';

/// Separates the keys of a list.
pub const KV_KEYS_DELIMITER: char = ',';

/// The pieces of `s` between occurrences of `d`, as `str::split` yields them:
/// `n` delimiters give `n + 1` pieces, some of them possibly empty.
pub open spec fn split(s: Seq<char>, d: char) -> Seq<Seq<char>>
    decreases s.len(),
{
    if s.len() == 0 {
        seq![Seq::empty()]
    } else {
        let r = split(s.drop_last(), d);
        if s.last() == d {
            r.push(Seq::empty())
        } else {
            r.update(r.len() - 1, r.last().push(s.last()))
        }
    }
}

/// The pieces joined with `d` between each two of them.
pub open spec fn join(parts: Seq<Seq<char>>, d: char) -> Seq<char>
    decreases parts.len(),
{
    if parts.len() == 0 {
        Seq::empty()
    } else if parts.len() == 1 {
        parts[0]
    } else {
        join(parts.drop_last(), d) + seq![d] + parts.last()
    }
}

/// `<path>/<hex(key)>`.
pub open spec fn encode_key(path: Seq<char>, key: Seq<u8>) -> Seq<char> {
    path + seq![KV_PATH_KEY_DELIMITER] + hex_encode(key)
}

/// The first piece is the path, the second the hexadecimal key; further pieces are ignored.
pub open spec fn decode_key(s: Seq<char>) -> Option<(Seq<char>, Seq<u8>)> {
    let parts = split(s, KV_PATH_KEY_DELIMITER);
    if parts.len() < 2 {
        None
    } else {
        match hex_decode(parts[1]) {
            Some(k) => Some((parts[0], k)),
            None => None,
        }
    }
}

/// The encodings of the keys, joined with commas.
pub open spec fn encode_keys(keys: Seq<(Seq<char>, Seq<u8>)>) -> Seq<char> {
    join(keys.map_values(|k: (Seq<char>, Seq<u8>)| encode_key(k.0, k.1)), KV_KEYS_DELIMITER)
}

/// Each comma-separated piece decoded as a key; `None` if any piece fails.
pub open spec fn decode_keys(s: Seq<char>) -> Option<Seq<(Seq<char>, Seq<u8>)>> {
    let parts = split(s, KV_KEYS_DELIMITER);
    if forall|i: int| 0 <= i < parts.len() ==> (#[trigger] decode_key(parts[i])) is Some {
        Some(Seq::new(parts.len(), |i: int| decode_key(parts[i]).unwrap()))
    } else {
        None
    }
}

/// A path that encodes without ambiguity inside a list of keys.
pub open spec fn is_list_safe_path(p: Seq<char>) -> bool {
    !p.contains(KV_PATH_KEY_DELIMITER) && !p.contains(KV_KEYS_DELIMITER)
}

pub proof fn lemma_split_free(s: Seq<char>, d: char)
    requires
        !s.contains(d),
    ensures
        split(s, d) == seq![s],
    decreases s.len(),
{
    if s.len() > 0 {
        assert(!s.drop_last().contains(d)) by {
            if s.drop_last().contains(d) {
                let i = choose|i: int| 0 <= i < s.drop_last().len() && s.drop_last()[i] == d;
                assert(s[i] == d);
            }
        }
        lemma_split_free(s.drop_last(), d);
        assert(s.last() != d) by {
            assert(s[s.len() - 1] == s.last());
        }
        assert(s.drop_last().push(s.last()) =~= s);
        assert(split(s, d) =~= seq![s]);
    } else {
        assert(s =~= Seq::<char>::empty());
    }
}

pub proof fn lemma_split_append(a: Seq<char>, b: Seq<char>, d: char)
    requires
        !b.contains(d),
    ensures
        split(a + seq![d] + b, d) == split(a, d).push(b),
    decreases b.len(),
{
    let s = a + seq![d] + b;
    if b.len() == 0 {
        assert(s.drop_last() =~= a);
        assert(b =~= Seq::<char>::empty());
    } else {
        let bd = b.drop_last();
        assert(!bd.contains(d)) by {
            if bd.contains(d) {
                let i = choose|i: int| 0 <= i < bd.len() && bd[i] == d;
                assert(b[i] == d);
            }
        }
        lemma_split_append(a, bd, d);
        assert(s.drop_last() =~= a + seq![d] + bd);
        assert(s.last() == b[b.len() - 1]);
        assert(bd.push(b.last()) =~= b);
        assert(split(s, d) =~= split(a, d).push(b));
    }
}

pub proof fn lemma_split_join(parts: Seq<Seq<char>>, d: char)
    requires
        parts.len() >= 1,
        forall|i: int| 0 <= i < parts.len() ==> !(#[trigger] parts[i]).contains(d),
    ensures
        split(join(parts, d), d) == parts,
    decreases parts.len(),
{
    if parts.len() == 1 {
        lemma_split_free(parts[0], d);
        assert(parts =~= seq![parts[0]]);
    } else {
        let pd = parts.drop_last();
        assert forall|i: int| 0 <= i < pd.len() implies !(#[trigger] pd[i]).contains(d) by {
            assert(pd[i] == parts[i]);
        }
        lemma_split_join(pd, d);
        assert(!parts.last().contains(d)) by {
            assert(parts.last() == parts[parts.len() - 1]);
        }
        lemma_split_append(join(pd, d), parts.last(), d);
        assert(pd.push(parts.last()) =~= parts);
    }
}

/// A key whose path holds no `/` decodes to itself.
pub proof fn lemma_key_round_trip(path: Seq<char>, key: Seq<u8>)
    requires
        !path.contains(KV_PATH_KEY_DELIMITER),
    ensures
        decode_key(encode_key(path, key)) == Some((path, key)),
{
    lemma_hex_round_trip(key);
    let h = hex_encode(key);
    assert(!h.contains(KV_PATH_KEY_DELIMITER)) by {
        if h.contains(KV_PATH_KEY_DELIMITER) {
            let i = choose|i: int| 0 <= i < h.len() && h[i] == KV_PATH_KEY_DELIMITER;
            assert(hex_value(h[i]) is Some);
        }
    }
    lemma_split_free(path, KV_PATH_KEY_DELIMITER);
    lemma_split_append(path, h, KV_PATH_KEY_DELIMITER);
    let parts = split(encode_key(path, key), KV_PATH_KEY_DELIMITER);
    assert(parts == seq![path].push(h));
    assert(parts[0] == path && parts[1] == h && parts.len() == 2);
}

/// The encoding of a key with a list-safe path holds no comma.
proof fn lemma_encoded_key_has_no_comma(path: Seq<char>, key: Seq<u8>)
    requires
        is_list_safe_path(path),
    ensures
        !encode_key(path, key).contains(KV_KEYS_DELIMITER),
{
    lemma_hex_round_trip(key);
    let e = encode_key(path, key);
    let h = hex_encode(key);
    if e.contains(KV_KEYS_DELIMITER) {
        let i = choose|i: int| 0 <= i < e.len() && e[i] == KV_KEYS_DELIMITER;
        if i < path.len() {
            assert(path[i] == e[i]);
        } else if i > path.len() {
            assert(e[i] == h[i - path.len() - 1]);
            assert(hex_value(h[i - path.len() - 1]) is Some);
        }
    }
}

/// A non-empty list of keys with list-safe paths decodes to itself.
pub proof fn lemma_keys_round_trip(keys: Seq<(Seq<char>, Seq<u8>)>)
    requires
        keys.len() >= 1,
        forall|i: int| 0 <= i < keys.len() ==> is_list_safe_path(#[trigger] keys[i].0),
    ensures
        decode_keys(encode_keys(keys)) == Some(keys),
{
    let encs = keys.map_values(|k: (Seq<char>, Seq<u8>)| encode_key(k.0, k.1));
    assert forall|i: int| 0 <= i < encs.len() implies !(#[trigger] encs[i]).contains(KV_KEYS_DELIMITER) by {
        lemma_encoded_key_has_no_comma(keys[i].0, keys[i].1);
    }
    lemma_split_join(encs, KV_KEYS_DELIMITER);
    assert forall|i: int| 0 <= i < encs.len() implies #[trigger] decode_key(encs[i]) == Some(keys[i]) by {
        lemma_key_round_trip(keys[i].0, keys[i].1);
    }
    let parts = split(encode_keys(keys), KV_KEYS_DELIMITER);
    assert(parts == encs);
    assert forall|i: int| 0 <= i < parts.len() implies (#[trigger] decode_key(parts[i])) is Some by {
        assert(decode_key(encs[i]) == Some(keys[i]));
    }
    assert(decode_keys(encode_keys(keys)).unwrap() =~= keys);
}

/// A string without `/` is not a key.
pub proof fn lemma_no_delimiter_is_malformed(s: Seq<char>)
    requires
        !s.contains(KV_PATH_KEY_DELIMITER),
    ensures
        decode_key(s) is None,
{
    lemma_split_free(s, KV_PATH_KEY_DELIMITER);
}

/// A list with an empty piece, such as one with a trailing comma, is not a list of keys.
pub proof fn lemma_empty_piece_is_malformed(s: Seq<char>, i: int)
    requires
        0 <= i < split(s, KV_KEYS_DELIMITER).len(),
        split(s, KV_KEYS_DELIMITER)[i].len() == 0,
    ensures
        decode_keys(s) is None,
{
    let piece = split(s, KV_KEYS_DELIMITER)[i];
    assert(!piece.contains(KV_PATH_KEY_DELIMITER));
    lemma_no_delimiter_is_malformed(piece);
}

/// A second piece of odd length, or with a character that is not a hexadecimal digit,
/// makes the string no key.
pub proof fn lemma_bad_hex_is_malformed(s: Seq<char>)
    requires
        split(s, KV_PATH_KEY_DELIMITER).len() >= 2,
        split(s, KV_PATH_KEY_DELIMITER)[1].len() % 2 == 1 || exists|i: int|
            0 <= i < split(s, KV_PATH_KEY_DELIMITER)[1].len() && (#[trigger] hex_value(
                split(s, KV_PATH_KEY_DELIMITER)[1][i],
            )) is None,
    ensures
        decode_key(s) is None,
{
}

/// The pieces of `s` between occurrences of `d`.
pub fn split_on(s: &str, d: char) -> (r: Vec<String>)
    ensures
        r@.map_values(|x: String| x@) == split(s@, d),
{
    let n = s.unicode_len();
    let mut parts: Vec<String> = Vec::new();
    let mut cur = String::new();
    let mut i: usize = 0;
    while i < n
        invariant
            n == s@.len(),
            i <= n,
            parts@.map_values(|x: String| x@).push(cur@) == split(s@.take(i as int), d),
        decreases n - i,
    {
        let c = s.get_char(i);
        proof {
            let t = s@.take(i as int + 1);
            assert(t.drop_last() =~= s@.take(i as int));
            assert(t.last() == c);
        }
        if c == d {
            parts.push(cur);
            cur = String::new();
            proof {
                let m = parts@.map_values(|x: String| x@);
                assert(m.push(cur@) =~= split(s@.take(i as int + 1), d));
            }
        } else {
            push_char(&mut cur, c);
            proof {
                let m = parts@.map_values(|x: String| x@);
                assert(m.push(cur@) =~= split(s@.take(i as int + 1), d));
            }
        }
        i = i + 1;
    }
    parts.push(cur);
    proof {
        assert(s@.take(n as int) =~= s@);
        assert(parts@.map_values(|x: String| x@) =~= split(s@, d));
    }
    parts
}

/// Describes a KV key for which you want to get value from the storage on remote chain
pub struct KVKey {
    /// **path** is a path to the storage (storage prefix) where you want to read value by key (usually name of cosmos-sdk module: 'staking', 'bank', etc.)
    pub path: String,
    /// **key** is a key you want to read from the storage
    pub key: Vec<u8>,
}

impl View for KVKey {
    type V = (Seq<char>, Seq<u8>);

    open spec fn view(&self) -> (Seq<char>, Seq<u8>) {
        (self.path@, self.key@)
    }
}

impl KVKey {
    /// Creates KVKey from string
    /// Returns None on failure
    pub fn from_string(s: &str) -> (r: Option<KVKey>)
        ensures
            r matches Some(k) ==> decode_key(s@) == Some(k@),
            r is None ==> decode_key(s@) is None,
    {
        let pieces = split_on(s, KV_PATH_KEY_DELIMITER);
        proof {
            assert(pieces@.len() == split(s@, KV_PATH_KEY_DELIMITER).len());
        }
        if pieces.len() < 2 {
            return None;
        }
        proof {
            assert(pieces@[0]@ == split(s@, KV_PATH_KEY_DELIMITER)[0]);
            assert(pieces@[1]@ == split(s@, KV_PATH_KEY_DELIMITER)[1]);
        }
        match decode_hex(pieces[1].as_str()) {
            Some(key) => Some(KVKey { path: pieces[0].clone(), key }),
            None => None,
        }
    }

    /// The key as `<path>/<hex(key)>`.
    pub fn into_string(&self) -> (r: String)
        requires
            self.key@.len() * 2 <= usize::MAX,
        ensures
            r@ == encode_key(self.path@, self.key@),
    {
        let mut s = self.path.clone();
        push_char(&mut s, KV_PATH_KEY_DELIMITER);
        let h = encode_hex(self.key.as_slice());
        s.append(h.as_str());
        s
    }

    /// A copy of the key.
    pub fn duplicate(&self) -> (r: KVKey)
        ensures
            r@ == self@,
    {
        KVKey { path: self.path.clone(), key: self.key.clone() }
    }
}

/// KVKeys describes vec of KVKey structures
pub struct KVKeys(pub Vec<KVKey>);

impl View for KVKeys {
    type V = Seq<(Seq<char>, Seq<u8>)>;

    open spec fn view(&self) -> Seq<(Seq<char>, Seq<u8>)> {
        self.0@.map_values(|k: KVKey| k@)
    }
}

impl KVKeys {
    /// Creates KVKeys from string
    /// Returns None on failure
    pub fn from_string(s: &str) -> (r: Option<KVKeys>)
        ensures
            r matches Some(k) ==> decode_keys(s@) == Some(k@),
            r is None ==> decode_keys(s@) is None,
    {
        let pieces = split_on(s, KV_KEYS_DELIMITER);
        let ghost parts = split(s@, KV_KEYS_DELIMITER);
        proof {
            assert(pieces@.len() == parts.len());
        }
        let mut keys: Vec<KVKey> = Vec::new();
        let mut i: usize = 0;
        while i < pieces.len()
            invariant
                parts == split(s@, KV_KEYS_DELIMITER),
                pieces@.map_values(|x: String| x@) == parts,
                i <= pieces@.len(),
                keys@.len() == i,
                forall|j: int| 0 <= j < i ==> #[trigger] decode_key(parts[j]) == Some(keys@[j]@),
            decreases pieces@.len() - i,
        {
            proof {
                assert(pieces@[i as int]@ == parts[i as int]);
            }
            match KVKey::from_string(pieces[i].as_str()) {
                Some(k) => keys.push(k),
                None => {
                    proof {
                        assert(decode_key(parts[i as int]) is None);
                    }
                    return None;
                },
            }
            i = i + 1;
        }
        let r = KVKeys(keys);
        proof {
            assert forall|j: int| 0 <= j < parts.len() implies (#[trigger] decode_key(parts[j])) is Some by {
                assert(decode_key(parts[j]) == Some(keys@[j]@));
            }
            assert(r@ =~= decode_keys(s@).unwrap());
        }
        Some(r)
    }

    /// The keys, each as `<path>/<hex(key)>`, joined with commas.
    pub fn into_string(&self) -> (r: String)
        requires
            forall|i: int| 0 <= i < self.0@.len() ==> (#[trigger] self.0@[i]).key@.len() * 2 <= usize::MAX,
        ensures
            r@ == encode_keys(self@),
    {
        let ghost encs = self@.map_values(|k: (Seq<char>, Seq<u8>)| encode_key(k.0, k.1));
        let mut s = String::new();
        let mut i: usize = 0;
        while i < self.0.len()
            invariant
                encs == self@.map_values(|k: (Seq<char>, Seq<u8>)| encode_key(k.0, k.1)),
                forall|i: int| 0 <= i < self.0@.len() ==> (#[trigger] self.0@[i]).key@.len() * 2 <= usize::MAX,
                i <= self.0@.len(),
                s@ == join(encs.take(i as int), KV_KEYS_DELIMITER),
            decreases self.0@.len() - i,
        {
            let e = self.0[i].into_string();
            proof {
                assert(encs[i as int] == e@);
                assert(encs.take(i as int + 1).drop_last() =~= encs.take(i as int));
                if i == 0 {
                    assert(encs.take(1) =~= seq![e@]);
                    assert(s@ =~= Seq::<char>::empty());
                }
            }
            if i > 0 {
                push_char(&mut s, KV_KEYS_DELIMITER);
            }
            s.append(e.as_str());
            proof {
                if i == 0 {
                    assert(s@ =~= e@);
                }
            }
            i = i + 1;
        }
        proof {
            assert(encs.take(i as int) =~= encs);
        }
        s
    }
}

} // verus!
