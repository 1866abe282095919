//! Service and method identifiers and their 32-bit hashes.

use vstd::prelude::*;
use vstd::string::StrSliceExecFns;
use vstd::wrapping::u32_specs;

verus! {

pub type Hash = u32;

/// The factor of the rolling hash.
pub const HASH_CONST: u32 = 65599;

/// The rolling hash over `s`, from hash `h` and factor `k`: each character
/// `c` adds `k * c`, then `k` is multiplied by 65599, all modulo 2^32.
pub open spec fn hash_fold(h: u32, k: u32, s: Seq<char>) -> u32
    decreases s.len(),
{
    if s.len() == 0 {
        h
    } else {
        hash_fold(
            u32_specs::wrapping_add(h, u32_specs::wrapping_mul(k, s[0] as u32)),
            u32_specs::wrapping_mul(k, 65599),
            s.drop_first(),
        )
    }
}

/// The hash of the name `s`: it starts from the length of `s` in UTF-8
/// bytes.
pub open spec fn id_hash(s: Seq<char>) -> u32 {
    hash_fold((vstd::utf8::encode_utf8(s).len() % 0x1_0000_0000) as u32, 65599, s)
}

/// Hashes a service or method name.
pub fn hash_65599(id: &str) -> (r: Hash)
    ensures
        r == id_hash(id@),
{
    let len = id.as_bytes().len();
    proof {
        assert(id@.skip(0) =~= id@);
    }
    let mut hash: u32 = (len as u64 % 0x1_0000_0000u64) as u32;
    let mut coef: u32 = HASH_CONST;
    let n = id.unicode_len();
    let mut i: usize = 0;
    while i < n
        invariant
            n == id@.len(),
            i <= n,
            id_hash(id@) == hash_fold(hash, coef, id@.skip(i as int)),
        decreases n - i,
    {
        let chr = id.get_char(i);
        proof {
            assert(id@.skip(i as int).drop_first() =~= id@.skip(i + 1));
            assert(id@.skip(i as int)[0] == chr);
        }
        hash = hash.wrapping_add(coef.wrapping_mul(chr as u32));
        coef = coef.wrapping_mul(HASH_CONST);
        i = i + 1;
    }
    proof {
        assert(id@.skip(n as int) =~= Seq::<char>::empty());
    }
    hash
}

/// An owned service or method name.
#[derive(Debug, Clone, PartialEq, Eq)]
pub struct Id {
    name: String,
}

impl Id {
    pub closed spec fn spec_name(&self) -> Seq<char> {
        self.name@
    }

    pub fn new(id: &str) -> (r: Self)
        ensures
            r.spec_name() == id@,
    {
        Id { name: id.to_owned() }
    }

    pub fn name(&self) -> (r: &str)
        ensures
            r@ == self.spec_name(),
    {
        self.name.as_str()
    }

    pub fn hash(&self) -> (r: Hash)
        ensures
            r == id_hash(self.spec_name()),
    {
        hash_65599(self.name.as_str())
    }

    pub fn as_ref(&self) -> (r: IdRef<'_>)
        ensures
            r.spec_name() == self.spec_name(),
    {
        IdRef { name: self.name.as_str() }
    }
}

/// A borrowed service or method name.
#[derive(Debug, Clone, Copy, PartialEq, Eq)]
pub struct IdRef<'a> {
    name: &'a str,
}

impl<'a> IdRef<'a> {
    pub closed spec fn spec_name(&self) -> Seq<char> {
        self.name@
    }

    pub fn new(name: &'a str) -> (r: Self)
        ensures
            r.spec_name() == name@,
    {
        IdRef { name }
    }

    pub fn name(&self) -> (r: &'a str)
        ensures
            r@ == self.spec_name(),
    {
        self.name
    }

    pub fn hash(&self) -> (r: Hash)
        ensures
            r == id_hash(self.spec_name()),
    {
        hash_65599(self.name)
    }
}

/// Index of the last '/' among the first `n` characters of `s`.
pub open spec fn rfind_slash(s: Seq<char>, n: nat) -> Option<nat>
    decreases n,
{
    if n == 0 {
        None
    } else if s[n - 1] == '/' {
        Some((n - 1) as nat)
    } else {
        rfind_slash(s, (n - 1) as nat)
    }
}

/// Where a path splits: at its last '/', or at 0 where it has none.
pub open spec fn split_of(s: Seq<char>) -> nat {
    match rfind_slash(s, s.len()) {
        Some(i) => i,
        None => 0,
    }
}

/// The service part of a path: everything before the split.
pub open spec fn service_of(s: Seq<char>) -> Seq<char> {
    s.take(split_of(s) as int)
}

/// The method part of a path: everything after the split character.
pub open spec fn method_of(s: Seq<char>) -> Seq<char> {
    if split_of(s) < s.len() {
        s.skip(split_of(s) + 1int)
    } else {
        Seq::empty()
    }
}

proof fn lemma_rfind_bound(s: Seq<char>, n: nat)
    ensures
        rfind_slash(s, n) matches Some(i) ==> i < n,
    decreases n,
{
    if n > 0 {
        lemma_rfind_bound(s, (n - 1) as nat);
    }
}

/// Finds where `path` splits.
fn find_split(path: &str) -> (r: usize)
    ensures
        r == split_of(path@),
        r <= path@.len(),
{
    let n = path.unicode_len();
    let mut i: usize = n;
    proof {
        lemma_rfind_bound(path@, n as nat);
    }
    while i > 0
        invariant
            i <= n,
            n == path@.len(),
            rfind_slash(path@, n as nat) == rfind_slash(path@, i as nat),
        decreases i,
    {
        if path.get_char(i - 1) == '/' {
            return i - 1;
        }
        i = i - 1;
    }
    0
}

/// An owned "Service/Method" path.
#[derive(Debug, Clone, PartialEq, Eq)]
pub struct Path {
    path: String,
    split: usize,
}

impl Path {
    pub closed spec fn spec_path(&self) -> Seq<char> {
        self.path@
    }

    pub closed spec fn wf(&self) -> bool {
        self.split == split_of(self.path@)
    }

    pub fn new(path: &str) -> (r: Self)
        ensures
            r.spec_path() == path@,
            r.wf(),
    {
        let split = find_split(path);
        Path { path: path.to_owned(), split }
    }

    pub fn service(&self) -> (r: IdRef<'_>)
        requires
            self.wf(),
        ensures
            r.spec_name() == service_of(self.spec_path()),
    {
        proof {
            lemma_rfind_bound(self.path@, self.path@.len());
        }
        IdRef::new(self.path.as_str().substring_char(0, self.split))
    }

    pub fn method(&self) -> (r: IdRef<'_>)
        requires
            self.wf(),
        ensures
            r.spec_name() == method_of(self.spec_path()),
    {
        let s = self.path.as_str();
        let n = s.unicode_len();
        if self.split < n {
            IdRef::new(s.substring_char(self.split + 1, n))
        } else {
            let r = IdRef::new(s.substring_char(0, 0));
            assert(r.spec_name() =~= Seq::<char>::empty());
            r
        }
    }

    pub fn as_ref(&self) -> (r: PathRef<'_>)
        requires
            self.wf(),
        ensures
            r.spec_path() == self.spec_path(),
            r.wf(),
    {
        PathRef { path: self.path.as_str(), split: self.split }
    }
}

/// A borrowed "Service/Method" path.
#[derive(Debug, Clone, Copy, PartialEq, Eq)]
pub struct PathRef<'a> {
    path: &'a str,
    split: usize,
}

impl<'a> PathRef<'a> {
    pub closed spec fn spec_path(&self) -> Seq<char> {
        self.path@
    }

    pub closed spec fn wf(&self) -> bool {
        self.split == split_of(self.path@)
    }

    pub fn new(path: &'a str) -> (r: Self)
        ensures
            r.spec_path() == path@,
            r.wf(),
    {
        let split = find_split(path);
        PathRef { path, split }
    }

    pub fn service(&self) -> (r: IdRef<'a>)
        requires
            self.wf(),
        ensures
            r.spec_name() == service_of(self.spec_path()),
    {
        proof {
            lemma_rfind_bound(self.path@, self.path@.len());
        }
        IdRef::new(self.path.substring_char(0, self.split))
    }

    pub fn method(&self) -> (r: IdRef<'a>)
        requires
            self.wf(),
        ensures
            r.spec_name() == method_of(self.spec_path()),
    {
        let n = self.path.unicode_len();
        if self.split < n {
            IdRef::new(self.path.substring_char(self.split + 1, n))
        } else {
            let r = IdRef::new(self.path.substring_char(0, 0));
            assert(r.spec_name() =~= Seq::<char>::empty());
            r
        }
    }
}

} // verus!
