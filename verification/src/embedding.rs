//! The embedding lookup the pipeline consumes, and the model-name parser.
//!
//! Embedding generation itself is an external collaborator: the program asks
//! the provider once, before the pipeline starts, and hands the result over
//! as a table from message text to vector. A vector is held as the raw bit
//! patterns of its single-precision coordinates, which the pipeline moves
//! without arithmetic; a message without an entry resolves to the empty
//! vector, never to an error.

use vstd::prelude::*;

verus! {

/// The embedding models the provider knows how to load.
#[derive(Clone, Copy, Debug, PartialEq, Eq, Structural)]
pub enum EmbeddingModelKind {
    BgeSmallEnV15,
    BgeBaseEnV15,
    BgeLargeEnV15,
    AllMiniLmL6V2,
    AllMiniLmL12V2,
}

/// Which model a configured name denotes, if any.
pub open spec fn spec_parse_model(name: Seq<char>) -> Option<EmbeddingModelKind> {
    if name == "BAAI/bge-small-en-v1.5"@ || name == "bge-small-en-v1.5"@ {
        Some(EmbeddingModelKind::BgeSmallEnV15)
    } else if name == "BAAI/bge-base-en-v1.5"@ || name == "bge-base-en-v1.5"@ {
        Some(EmbeddingModelKind::BgeBaseEnV15)
    } else if name == "BAAI/bge-large-en-v1.5"@ || name == "bge-large-en-v1.5"@ {
        Some(EmbeddingModelKind::BgeLargeEnV15)
    } else if name == "sentence-transformers/all-MiniLM-L6-v2"@ || name == "all-MiniLM-L6-v2"@ {
        Some(EmbeddingModelKind::AllMiniLmL6V2)
    } else if name == "sentence-transformers/all-MiniLM-L12-v2"@ || name
        == "all-MiniLM-L12-v2"@ {
        Some(EmbeddingModelKind::AllMiniLmL12V2)
    } else {
        None
    }
}

/// The message that rejects an unknown model name.
pub open spec fn spec_unknown_model_msg(name: Seq<char>) -> Seq<char> {
    "Unknown embedding model: '"@ + name
        + "'. Supported: bge-small-en-v1.5, bge-base-en-v1.5, bge-large-en-v1.5, all-MiniLM-L6-v2, all-MiniLM-L12-v2"@
}

fn str_matches(name: &String, lit: &str) -> (r: bool)
    ensures
        r == (name@ == lit@),
{
    let other = String::from_str(lit);
    name.eq(&other)
}

/// Parses a configured model name: a known name (with or without its
/// publisher prefix) gives its model, and any other name is rejected with a
/// message that names the supported models.
pub fn parse_model(name: &String) -> (r: Result<EmbeddingModelKind, String>)
    ensures
        match spec_parse_model(name@) {
            Some(kind) => r == Ok::<EmbeddingModelKind, String>(kind),
            None => r matches Err(msg) && msg@ == spec_unknown_model_msg(name@),
        },
{
    if str_matches(name, "BAAI/bge-small-en-v1.5") || str_matches(name, "bge-small-en-v1.5") {
        Ok(EmbeddingModelKind::BgeSmallEnV15)
    } else if str_matches(name, "BAAI/bge-base-en-v1.5") || str_matches(
        name,
        "bge-base-en-v1.5",
    ) {
        Ok(EmbeddingModelKind::BgeBaseEnV15)
    } else if str_matches(name, "BAAI/bge-large-en-v1.5") || str_matches(
        name,
        "bge-large-en-v1.5",
    ) {
        Ok(EmbeddingModelKind::BgeLargeEnV15)
    } else if str_matches(name, "sentence-transformers/all-MiniLM-L6-v2") || str_matches(
        name,
        "all-MiniLM-L6-v2",
    ) {
        Ok(EmbeddingModelKind::AllMiniLmL6V2)
    } else if str_matches(name, "sentence-transformers/all-MiniLM-L12-v2") || str_matches(
        name,
        "all-MiniLM-L12-v2",
    ) {
        Ok(EmbeddingModelKind::AllMiniLmL12V2)
    } else {
        let mut msg = String::from_str("Unknown embedding model: '");
        msg.append(name.as_str());
        msg.append(
            "'. Supported: bge-small-en-v1.5, bge-base-en-v1.5, bge-large-en-v1.5, all-MiniLM-L6-v2, all-MiniLM-L12-v2",
        );
        assert(msg@ =~= spec_unknown_model_msg(name@));
        Err(msg)
    }
}

/// A read-only table from message text to embedding vector, built once before
/// the pipeline starts and then shared by every producer.
pub struct EmbeddingTable {
    keys: Vec<String>,
    vectors: Vec<Vec<u32>>,
}

impl EmbeddingTable {
    /// One vector per key, and no key twice.
    pub closed spec fn wf(&self) -> bool {
        &&& self.keys@.len() == self.vectors@.len()
        &&& forall|i: int, j: int|
            0 <= i < j < self.keys@.len() ==> self.keys@[i]@ != self.keys@[j]@
    }

    /// Whether some entry is keyed by `m`.
    pub closed spec fn spec_contains(&self, m: Seq<char>) -> bool {
        exists|i: int| 0 <= i < self.keys@.len() && self.keys@[i]@ == m
    }

    /// The vector stored for `m`; a missing entry reads as the empty vector.
    pub closed spec fn spec_lookup(&self, m: Seq<char>) -> Seq<u32> {
        if self.spec_contains(m) {
            let i = choose|i: int| 0 <= i < self.keys@.len() && self.keys@[i]@ == m;
            self.vectors@[i]@
        } else {
            Seq::empty()
        }
    }

    /// How many entries the table holds.
    pub closed spec fn spec_len(&self) -> nat {
        self.keys@.len()
    }

    /// An empty table: every message resolves to the empty vector.
    pub fn new() -> (r: EmbeddingTable)
        ensures
            r.wf(),
            r.spec_len() == 0,
            forall|m: Seq<char>| r.spec_lookup(m) == Seq::<u32>::empty(),
            forall|m: Seq<char>| !r.spec_contains(m),
    {
        EmbeddingTable { keys: Vec::new(), vectors: Vec::new() }
    }

    /// How many entries the table holds.
    pub fn len(&self) -> (r: usize)
        requires
            self.wf(),
        ensures
            r == self.spec_len(),
    {
        self.keys.len()
    }

    fn find(&self, m: &String) -> (o: Option<usize>)
        requires
            self.wf(),
        ensures
            match o {
                Some(i) => i < self.keys@.len() && self.keys@[i as int]@ == m@,
                None => !self.spec_contains(m@),
            },
    {
        let mut j: usize = 0;
        while j < self.keys.len()
            invariant
                j <= self.keys@.len(),
                forall|t: int| 0 <= t < j ==> self.keys@[t]@ != m@,
            decreases self.keys@.len() - j,
        {
            if self.keys[j].eq(m) {
                return Some(j);
            }
            j += 1;
        }
        None
    }

    /// Binds `key` to `vector`, replacing any earlier binding of the same
    /// text; every other binding is untouched.
    pub fn insert(&mut self, key: String, vector: Vec<u32>)
        requires
            old(self).wf(),
        ensures
            final(self).wf(),
            final(self).spec_contains(key@),
            forall|m: Seq<char>|
                final(self).spec_lookup(m) == if m == key@ {
                    vector@
                } else {
                    old(self).spec_lookup(m)
                },
            forall|m: Seq<char>|
                final(self).spec_contains(m) == (m == key@ || old(self).spec_contains(m)),
    {
        let ghost keys0 = self.keys@;
        match self.find(&key) {
            Some(i) => {
                self.vectors.set(i, vector);
                proof {
                    assert(self.keys@ == keys0);
                    assert forall|m: Seq<char>| self.spec_lookup(m) == (if m == key@ {
                        vector@
                    } else {
                        old(self).spec_lookup(m)
                    }) by {
                        if self.spec_contains(m) {
                            let j = choose|j: int|
                                0 <= j < self.keys@.len() && self.keys@[j]@ == m;
                            if m == key@ {
                                assert(j == i);
                            } else {
                                assert(j != i);
                            }
                        }
                    }
                }
            },
            None => {
                self.keys.push(key);
                self.vectors.push(vector);
                proof {
                    let n = keys0.len() as int;
                    assert(self.keys@[n]@ == key@);
                    assert(forall|t: int| 0 <= t < n ==> self.keys@[t] == keys0[t]);
                    assert forall|i: int, j: int|
                        0 <= i < j < self.keys@.len() implies self.keys@[i]@
                        != self.keys@[j]@ by {
                        if j == n {
                            assert(keys0[i]@ != key@);
                        }
                    }
                    assert forall|m: Seq<char>| self.spec_lookup(m) == (if m == key@ {
                        vector@
                    } else {
                        old(self).spec_lookup(m)
                    }) by {
                        if m == key@ {
                            let j = choose|j: int|
                                0 <= j < self.keys@.len() && self.keys@[j]@ == m;
                            assert(self.spec_contains(m));
                            assert(j == n);
                        } else {
                            if self.spec_contains(m) {
                                let j = choose|j: int|
                                    0 <= j < self.keys@.len() && self.keys@[j]@ == m;
                                assert(j != n);
                                assert(0 <= j < keys0.len() && keys0[j]@ == m);
                                let j0 = choose|j0: int|
                                    0 <= j0 < keys0.len() && keys0[j0]@ == m;
                                assert(j0 == j);
                            } else {
                                assert(!old(self).spec_contains(m));
                            }
                        }
                    }
                }
            },
        }
    }

    /// The vector bound to `m`, or the empty vector if the text is unknown:
    /// a catalog miss is not an error.
    pub fn lookup(&self, m: &String) -> (r: Vec<u32>)
        requires
            self.wf(),
        ensures
            r@ == self.spec_lookup(m@),
    {
        match self.find(m) {
            Some(i) => {
                let r = self.vectors[i].clone();
                proof {
                    assert(r@ =~= self.vectors@[i as int]@);
                    let j = choose|j: int| 0 <= j < self.keys@.len() && self.keys@[j]@ == m@;
                    assert(j == i as int);
                }
                r
            },
            None => {
                let r: Vec<u32> = Vec::new();
                proof {
                    assert(r@ =~= self.spec_lookup(m@));
                }
                r
            },
        }
    }
}

} // verus!
