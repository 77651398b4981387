//! Module cache: compiled modules keyed by a 32-byte content hash, shared
//! by reference counting. A hit returns the stored module; a miss compiles
//! the supplied bytes and stores the result under the key, which is
//! authoritative — content is never re-hashed.

use crate::engine::compile_module;
use crate::host_error::HostError;
use std::sync::Arc;
use vstd::array::array_index_get;
use vstd::prelude::*;
use vstd::string::StringExecFns;

verus! {

broadcast use vstd::std_specs::vec::axiom_spec_len;

/// A compiled WASM module, opaque to the logic here.
#[verifier::external_type_specification]
#[verifier::external_body]
pub struct ExModule(wasmer::Module);

/// Relies on std's `Arc::clone`: a new handle to the same value.
#[verifier::external_body]
fn clone_module_handle(v: &Arc<wasmer::Module>) -> (res: Arc<wasmer::Module>)
    ensures
        res == *v,
{
    Arc::clone(v)
}

/// Relies on wasmer's `Engine::default`: an engine with the default
/// compiler, used only to compile cache misses; created the first time a
/// miss needs compiling.
#[verifier::external_body]
fn default_engine() -> wasmer::Engine {
    wasmer::Engine::default()
}

fn keys_equal(a: &[u8; 32], b: &[u8; 32]) -> (r: bool)
    ensures
        r == (a@ == b@),
{
    let mut i: usize = 0;
    while i < 32
        invariant
            i <= 32,
            forall|j: int| 0 <= j < i ==> a@[j] == b@[j],
        decreases 32 - i,
    {
        if *array_index_get(a, i) != *array_index_get(b, i) {
            return false;
        }
        i = i + 1;
    }
    proof {
        assert(a@ =~= b@);
    }
    true
}

/// The character for one hexadecimal digit.
pub open spec fn spec_hex_digit(d: int) -> char {
    if d == 0 {
        '0'
    } else if d == 1 {
        '1'
    } else if d == 2 {
        '2'
    } else if d == 3 {
        '3'
    } else if d == 4 {
        '4'
    } else if d == 5 {
        '5'
    } else if d == 6 {
        '6'
    } else if d == 7 {
        '7'
    } else if d == 8 {
        '8'
    } else if d == 9 {
        '9'
    } else if d == 10 {
        'a'
    } else if d == 11 {
        'b'
    } else if d == 12 {
        'c'
    } else if d == 13 {
        'd'
    } else if d == 14 {
        'e'
    } else {
        'f'
    }
}

/// The lower-case hexadecimal rendering of a byte sequence, two digits per
/// byte.
pub open spec fn spec_hex(bytes: Seq<u8>) -> Seq<char>
    decreases bytes.len(),
{
    if bytes.len() == 0 {
        Seq::<char>::empty()
    } else {
        spec_hex(bytes.drop_last()) + seq![
            spec_hex_digit(bytes.last() as int / 16),
            spec_hex_digit(bytes.last() as int % 16),
        ]
    }
}

fn hex_digit_str(d: u8) -> (r: &'static str)
    requires
        d < 16,
    ensures
        r@ =~= seq![spec_hex_digit(d as int)],
{
    proof {
        reveal_strlit("0");
        reveal_strlit("1");
        reveal_strlit("2");
        reveal_strlit("3");
        reveal_strlit("4");
        reveal_strlit("5");
        reveal_strlit("6");
        reveal_strlit("7");
        reveal_strlit("8");
        reveal_strlit("9");
        reveal_strlit("a");
        reveal_strlit("b");
        reveal_strlit("c");
        reveal_strlit("d");
        reveal_strlit("e");
        reveal_strlit("f");
    }
    if d == 0 {
        "0"
    } else if d == 1 {
        "1"
    } else if d == 2 {
        "2"
    } else if d == 3 {
        "3"
    } else if d == 4 {
        "4"
    } else if d == 5 {
        "5"
    } else if d == 6 {
        "6"
    } else if d == 7 {
        "7"
    } else if d == 8 {
        "8"
    } else if d == 9 {
        "9"
    } else if d == 10 {
        "a"
    } else if d == 11 {
        "b"
    } else if d == 12 {
        "c"
    } else if d == 13 {
        "d"
    } else if d == 14 {
        "e"
    } else {
        "f"
    }
}

/// Render bytes as lower-case hexadecimal, two digits per byte: the name a
/// cached module is stored under on disk.
pub fn hex_encode(bytes: &[u8]) -> (r: String)
    ensures
        r@ == spec_hex(bytes@),
{
    let mut out = String::new();
    let mut i: usize = 0;
    while i < bytes.len()
        invariant
            i <= bytes@.len(),
            out@ == spec_hex(bytes@.take(i as int)),
        decreases bytes@.len() - i,
    {
        let b = *vstd::slice::slice_index_get(bytes, i);
        out.append(hex_digit_str(b / 16));
        out.append(hex_digit_str(b % 16));
        proof {
            assert(bytes@.take(i + 1).drop_last() =~= bytes@.take(i as int));
            assert(bytes@.take(i + 1).last() == bytes@[i as int]);
        }
        i = i + 1;
    }
    proof {
        assert(bytes@.take(bytes@.len() as int) =~= bytes@);
    }
    out
}

/// Cache of compiled modules, keyed by a 32-byte content hash.
pub struct ModuleCache {
    cache_path: Option<String>,
    keys: Vec<[u8; 32]>,
    modules: Vec<Arc<wasmer::Module>>,
    engine: Option<wasmer::Engine>,
}

impl ModuleCache {
    /// The keys held, in insertion order.
    pub closed spec fn spec_keys(&self) -> Seq<Seq<u8>> {
        self.keys@.map_values(|k: [u8; 32]| k@)
    }

    /// The modules held, in insertion order.
    pub closed spec fn spec_modules(&self) -> Seq<Arc<wasmer::Module>> {
        self.modules@
    }

    /// The configured cache directory, if one was given.
    pub closed spec fn spec_cache_path(&self) -> Option<Seq<char>> {
        match self.cache_path {
            Option::Some(p) => Option::Some(p@),
            Option::None => Option::None,
        }
    }

    /// Each key has exactly one module, and no key is held twice.
    pub open spec fn wf(&self) -> bool {
        &&& self.spec_keys().len() == self.spec_modules().len()
        &&& forall|i: int, j: int|
            0 <= i < j < self.spec_keys().len() ==> self.spec_keys()[i] != self.spec_keys()[j]
    }

    /// Whether a key is held.
    pub open spec fn spec_contains(&self, k: Seq<u8>) -> bool {
        self.spec_keys().contains(k)
    }

    /// The module held under a key.
    pub open spec fn spec_module_for(&self, k: Seq<u8>) -> Arc<wasmer::Module> {
        self.spec_modules()[self.spec_keys().index_of(k)]
    }

    /// Create a new, empty cache.
    pub fn new(cache_path: Option<String>) -> (r: ModuleCache)
        ensures
            r.wf(),
            r.spec_keys() == Seq::<Seq<u8>>::empty(),
            r.spec_modules() == Seq::<Arc<wasmer::Module>>::empty(),
            cache_path matches Some(p) ==> r.spec_cache_path() == Option::Some(p@),
            cache_path is None ==> r.spec_cache_path() is None,
    {
        let r = ModuleCache {
            cache_path,
            keys: Vec::new(),
            modules: Vec::new(),
            engine: None,
        };
        proof {
            assert(r.spec_keys() =~= Seq::<Seq<u8>>::empty());
        }
        r
    }

    fn find(&self, key: &[u8; 32]) -> (r: Option<usize>)
        requires
            self.wf(),
        ensures
            r matches Some(i) ==> i < self.spec_keys().len() && self.spec_keys()[i as int] == key@
                && self.spec_contains(key@),
            r is None ==> !self.spec_contains(key@),
    {
        let mut i: usize = 0;
        let n = self.keys.len();
        while i < n
            invariant
                i <= n,
                n == self.spec_keys().len(),
                self.wf(),
                forall|j: int| 0 <= j < i ==> self.spec_keys()[j] != key@,
            decreases n - i,
        {
            if keys_equal(&self.keys[i], key) {
                proof {
                    assert(self.spec_keys()[i as int] == key@);
                }
                return Some(i);
            }
            i = i + 1;
        }
        proof {
            assert forall|j: int| 0 <= j < self.spec_keys().len() implies self.spec_keys()[j]
                != key@ by {}
            assert(!self.spec_keys().contains(key@));
        }
        None
    }

    /// Look a key up without compiling anything.
    pub fn lookup(&self, key: &[u8; 32]) -> (r: Option<Arc<wasmer::Module>>)
        requires
            self.wf(),
        ensures
            self.spec_contains(key@) ==> r == Option::Some(self.spec_module_for(key@)),
            !self.spec_contains(key@) ==> r is None,
    {
        match self.find(key) {
            Some(i) => {
                let m = clone_module_handle(&self.modules[i]);
                proof {
                    lemma_unique_index_of(self.spec_keys(), key@, i as int);
                }
                Some(m)
            },
            None => None,
        }
    }

    /// Store a module under a key that is not yet held; a held key leaves
    /// the cache unchanged (the key is authoritative).
    pub fn insert(&mut self, key: [u8; 32], module: Arc<wasmer::Module>)
        requires
            old(self).wf(),
        ensures
            final(self).wf(),
            final(self).spec_cache_path() == old(self).spec_cache_path(),
            old(self).spec_contains(key@) ==> *final(self) == *old(self),
            !old(self).spec_contains(key@) ==> final(self).spec_keys() == old(
                self,
            ).spec_keys().push(key@) && final(self).spec_modules() == old(
                self,
            ).spec_modules().push(module),
            final(self).spec_contains(key@),
            !old(self).spec_contains(key@) ==> final(self).spec_module_for(key@) == module,
    {
        match self.find(&key) {
            Some(_) => (),
            None => {
                self.keys.push(key);
                self.modules.push(module);
                proof {
                    assert(self.spec_keys() =~= old(self).spec_keys().push(key@));
                    assert(self.spec_keys()[self.spec_keys().len() - 1] == key@);
                    lemma_unique_index_of(self.spec_keys(), key@, self.spec_keys().len() - 1);
                }
            },
        }
    }

    /// Get or compile a module. A held key returns the stored module and
    /// changes nothing — the same reference every time. A missing key has
    /// the bytes compiled; success stores the module under the key, failure
    /// is a compilation error and changes nothing.
    pub fn get(&mut self, key: [u8; 32], wasm_bytes: &[u8]) -> (r: Result<
        Arc<wasmer::Module>,
        HostError,
    >)
        requires
            old(self).wf(),
        ensures
            final(self).wf(),
            final(self).spec_cache_path() == old(self).spec_cache_path(),
            old(self).spec_contains(key@) ==> *final(self) == *old(self) && (r matches Ok(m) && m
                == old(self).spec_module_for(key@)),
            !old(self).spec_contains(key@) ==> match r {
                Ok(m) => final(self).spec_keys() == old(self).spec_keys().push(key@) && final(self).spec_modules() == old(self).spec_modules().push(m),
                Err(e) => final(self).spec_keys() == old(self).spec_keys() && final(self).spec_modules() == old(self).spec_modules() && e matches HostError::Compilation(_),
            },
            r matches Ok(m) ==> final(self).spec_contains(key@) && final(self).spec_module_for(
                key@,
            ) == m,
    {
        match self.find(&key) {
            Some(i) => {
                let m = clone_module_handle(&self.modules[i]);
                proof {
                    lemma_unique_index_of(self.spec_keys(), key@, i as int);
                }
                Ok(m)
            },
            None => {
                if self.engine.is_none() {
                    self.engine = Some(default_engine());
                }
                let compiled = match &self.engine {
                    Some(engine) => compile_module(engine, wasm_bytes),
                    None => Err(String::new()),  // just initialised above
                };
                match compiled {
                    Ok(module) => {
                        let arc = Arc::new(module);
                        let result = clone_module_handle(&arc);
                        self.keys.push(key);
                        self.modules.push(arc);
                        proof {
                            assert(self.spec_keys() =~= old(self).spec_keys().push(key@));
                            assert(self.spec_keys()[self.spec_keys().len() - 1] == key@);
                            lemma_unique_index_of(
                                self.spec_keys(),
                                key@,
                                self.spec_keys().len() - 1,
                            );
                        }
                        Ok(result)
                    },
                    Err(msg) => {
                        let mut text = "Failed to compile WASM: ".to_owned();
                        text.append(msg.as_str());
                        Err(HostError::Compilation(text))
                    },
                }
            },
        }
    }

    /// Clear the in-memory cache; on-disk artifacts are untouched.
    pub fn clear(&mut self)
        ensures
            final(self).wf(),
            final(self).spec_cache_path() == old(self).spec_cache_path(),
            final(self).spec_keys() == Seq::<Seq<u8>>::empty(),
            final(self).spec_modules() == Seq::<Arc<wasmer::Module>>::empty(),
    {
        self.keys.clear();
        self.modules.clear();
        proof {
            assert(self.spec_keys() =~= Seq::<Seq<u8>>::empty());
        }
    }

    /// Get the number of cached modules.
    pub fn len(&self) -> (r: usize)
        ensures
            r == self.spec_keys().len(),
    {
        self.keys.len()
    }

    /// Check whether the cache is empty.
    pub fn is_empty(&self) -> (r: bool)
        ensures
            r == (self.spec_keys().len() == 0),
    {
        self.keys.is_empty()
    }

    /// Get the configured cache directory, if one was given.
    pub fn cache_path(&self) -> (r: Option<&String>)
        ensures
            self.spec_cache_path() matches Some(p) ==> r matches Some(s) && s@ == p,
            self.spec_cache_path() is None ==> r is None,
    {
        self.cache_path.as_ref()
    }
}

impl Default for ModuleCache {
    /// The default cache has no cache directory.
    fn default() -> (r: ModuleCache)
        ensures
            r.wf(),
            r.spec_keys() == Seq::<Seq<u8>>::empty(),
            r.spec_cache_path() is None,
    {
        ModuleCache::new(None)
    }
}

/// In a sequence without repeats, the index found for an element it holds
/// at `i` is `i` itself.
proof fn lemma_unique_index_of(keys: Seq<Seq<u8>>, k: Seq<u8>, i: int)
    requires
        0 <= i < keys.len(),
        keys[i] == k,
        forall|p: int, q: int| 0 <= p < q < keys.len() ==> keys[p] != keys[q],
    ensures
        keys.contains(k),
        keys.index_of(k) == i,
{
    assert(keys.contains(k));
    let j = keys.index_of(k);
    assert(keys[j] == k);
    if j < i {
        assert(keys[j] != keys[i]);
    } else if j > i {
        assert(keys[i] != keys[j]);
    }
}

} // verus!
