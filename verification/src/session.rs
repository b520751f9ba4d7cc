//! The session: open documents, the active schema source, and the published
//! snapshot.
//!
//! The session is the single writer of the snapshot: readers always see the
//! last value published as a whole, never a partially built one. Documents
//! are keyed by path; edits carry versions, and a stale version is dropped
//! silently.

use vstd::prelude::*;
use vstd::pervasive::VecAdditionalExecFns;
use crate::db::DbConnection;
use crate::diagnostics::Diagnostic;
use crate::schema::SchemaCache;
use crate::strutil::str_eq;

verus! {

/// Server-side state of one open editor file.
#[derive(Debug)]
pub struct Document {
    pub path: String,
    pub version: i32,
    pub text: String,
    pub diagnostics: Vec<Diagnostic>,
}

/// The coordinator: open documents, the published snapshot, and at most one
/// active schema source.
#[derive(Debug)]
pub struct Session {
    pub documents: Vec<Document>,
    pub schema_cache: SchemaCache,
    pub db: Option<DbConnection>,
}

/// Index of the first document with this path.
pub open spec fn find_doc(docs: Seq<Document>, path: Seq<char>) -> Option<int>
    decreases docs.len(),
{
    if docs.len() == 0 {
        None
    } else {
        match find_doc(docs.drop_last(), path) {
            Some(i) => Some(i),
            None => {
                let j = docs.len() - 1;
                if docs[j].path@ == path {
                    Some(j)
                } else {
                    None
                }
            },
        }
    }
}

/// The paths of a document list, in order.
pub open spec fn doc_paths(docs: Seq<Document>) -> Seq<Seq<char>> {
    docs.map_values(|d: Document| d.path@)
}

/// The character sequences behind a list of path strings.
pub open spec fn path_views(v: Seq<String>) -> Seq<Seq<char>> {
    v.map_values(|s: String| s@)
}

/// A document holds exactly this path, version and text, with no diagnostics
/// computed yet.
pub open spec fn spec_doc(d: Document, path: Seq<char>, version: i32, text: Seq<char>) -> bool {
    &&& d.path@ == path
    &&& d.version == version
    &&& d.text@ == text
    &&& d.diagnostics@.len() == 0
}

/// What applying an edit does to the document list. A first sight of the
/// path opens the document; a version above the stored one replaces it; a
/// stale version changes nothing and nothing is republished.
pub open spec fn apply_change_post(
    pre: Seq<Document>,
    post: Seq<Document>,
    path: Seq<char>,
    version: i32,
    text: Seq<char>,
    changed: Seq<Seq<char>>,
) -> bool {
    match find_doc(pre, path) {
        None => {
            &&& post.len() == pre.len() + 1
            &&& (forall|j: int| 0 <= j < pre.len() ==> post[j] == pre[j])
            &&& spec_doc(post[pre.len() as int], path, version, text)
            &&& changed =~= seq![path]
        },
        Some(i) => {
            if version > pre[i].version {
                &&& post.len() == pre.len()
                &&& (forall|j: int| 0 <= j < pre.len() && j != i ==> post[j] == pre[j])
                &&& spec_doc(post[i], path, version, text)
                &&& changed =~= seq![path]
            } else {
                &&& post =~= pre
                &&& changed.len() == 0
            }
        },
    }
}

/// Whether a reconfiguration for this connection string must build a new
/// schema source: yes unless the active one already has that identity.
pub open spec fn spec_wants_reconnect(s: Session, connection_string: Seq<char>) -> bool {
    match s.db {
        Some(d) => d.connection_string@ != connection_string,
        None => true,
    }
}

/// What a reader of the session observes: the last published snapshot.
pub open spec fn spec_read(s: Session) -> SchemaCache {
    s.schema_cache
}

/// What publishing a snapshot does: the snapshot slot holds the new value as
/// a whole; documents and the schema source are untouched.
pub open spec fn update_schema_post(pre: Session, post: Session, snapshot: SchemaCache) -> bool {
    &&& post.schema_cache == snapshot
    &&& post.documents == pre.documents
    &&& post.db == pre.db
}

/// Once a prefix scan has found a document, the longer prefixes and the full
/// list report that same first hit.
proof fn lemma_find_doc_extend(docs: Seq<Document>, path: Seq<char>, k: int)
    requires
        0 <= k <= docs.len(),
        find_doc(docs.take(k), path) is Some,
    ensures
        find_doc(docs, path) == find_doc(docs.take(k), path),
    decreases docs.len() - k,
{
    if k < docs.len() {
        assert(docs.take(k + 1).drop_last() =~= docs.take(k));
        lemma_find_doc_extend(docs, path, k + 1);
    } else {
        assert(docs.take(k) =~= docs);
    }
}

impl Session {
    /// A fresh session: no documents, an empty snapshot, no schema source.
    pub fn new() -> (r: Session)
        ensures
            r.documents@.len() == 0,
            r.schema_cache.tables@.len() == 0,
            r.db is None,
    {
        Session { documents: Vec::new(), schema_cache: SchemaCache::empty(), db: None }
    }

    /// Find the open document with this path.
    fn find_doc_index(&self, path: &str) -> (r: Option<usize>)
        ensures
            match r {
                Some(i) => find_doc(self.documents@, path@) == Some(i as int) && i
                    < self.documents@.len(),
                None => find_doc(self.documents@, path@) is None,
            },
    {
        let n = self.documents.len();
        let mut i: usize = 0;
        while i < n
            invariant
                n == self.documents@.len(),
                i <= n,
                find_doc(self.documents@.take(i as int), path@) is None,
            decreases n - i,
        {
            proof {
                assert(self.documents@.take(i + 1).drop_last() =~= self.documents@.take(i as int));
                assert(self.documents@.take(i + 1)[i as int] == self.documents@[i as int]);
            }
            if str_eq(self.documents[i].path.as_str(), path) {
                proof {
                    assert(find_doc(self.documents@.take(i + 1), path@) == Some(i as int));
                    lemma_find_doc_extend(self.documents@, path@, i + 1);
                }
                return Some(i);
            }
            i = i + 1;
        }
        proof {
            assert(self.documents@.take(n as int) =~= self.documents@);
        }
        None
    }

    /// Apply an edit (or an open) to the document keyed by `path` and return
    /// the paths whose diagnostics must be republished. A version at or
    /// below the stored one is a stale, reordered edit: it is dropped and
    /// nothing is republished.
    pub fn apply_change(&mut self, path: String, version: i32, text: String) -> (changed: Vec<
        String,
    >)
        ensures
            apply_change_post(
                old(self).documents@,
                final(self).documents@,
                path@,
                version,
                text@,
                path_views(changed@),
            ),
            final(self).schema_cache == old(self).schema_cache,
            final(self).db == old(self).db,
    {
        let found = self.find_doc_index(path.as_str());
        match found {
            None => {
                let doc = Document { path: path.clone(), version, text, diagnostics: Vec::new() };
                self.documents.push(doc);
                let mut changed: Vec<String> = Vec::new();
                changed.push(path);
                proof {
                    assert(path_views(changed@) =~= seq![changed@[0]@]);
                }
                changed
            },
            Some(i) => {
                if version > self.documents[i].version {
                    let doc = Document {
                        path: path.clone(),
                        version,
                        text,
                        diagnostics: Vec::new(),
                    };
                    self.documents.set(i, doc);
                    let mut changed: Vec<String> = Vec::new();
                    changed.push(path);
                    proof {
                        assert(path_views(changed@) =~= seq![changed@[0]@]);
                    }
                    changed
                } else {
                    let changed: Vec<String> = Vec::new();
                    proof {
                        assert(path_views(changed@) =~= Seq::<Seq<char>>::empty());
                    }
                    changed
                }
            },
        }
    }

    /// A save republishes the saved document, then sweeps every open
    /// document, since schema-dependent diagnostics may have gone stale
    /// through cross-file relationships.
    pub fn on_save(&self, path: &str) -> (changed: Vec<String>)
        ensures
            path_views(changed@) == seq![path@] + doc_paths(self.documents@),
    {
        let mut changed: Vec<String> = Vec::new();
        changed.push(String::from_str(path));
        let n = self.documents.len();
        let mut i: usize = 0;
        while i < n
            invariant
                n == self.documents@.len(),
                i <= n,
                changed@.len() == i + 1,
                changed@[0]@ == path@,
                forall|j: int| 0 <= j < i ==> changed@[j + 1]@ == self.documents@[j].path@,
            decreases n - i,
        {
            changed.push(self.documents[i].path.clone());
            i = i + 1;
        }
        proof {
            assert(path_views(changed@) =~= seq![path@] + doc_paths(self.documents@));
        }
        changed
    }

    /// Forget a closed document; nothing further is published for it.
    pub fn on_file_closed(&mut self, path: &str)
        ensures
            match find_doc(old(self).documents@, path@) {
                Some(i) => final(self).documents@ == old(self).documents@.remove(i),
                None => final(self).documents@ == old(self).documents@,
            },
            final(self).schema_cache == old(self).schema_cache,
            final(self).db == old(self).db,
    {
        let found = self.find_doc_index(path);
        match found {
            Some(i) => {
                self.documents.remove(i);
            },
            None => {},
        }
    }

    /// The last-computed diagnostics of the document, as `(message,
    /// severity, range)` records; a path that is not open has none.
    pub fn get_diagnostics(&self, path: &str) -> (r: Vec<Diagnostic>)
        ensures
            match find_doc(self.documents@, path@) {
                Some(i) => r@ == self.documents@[i].diagnostics@,
                None => r@.len() == 0,
            },
    {
        match self.find_doc_index(path) {
            Some(i) => {
                let d = &self.documents[i];
                let n = d.diagnostics.len();
                let mut out: Vec<Diagnostic> = Vec::new();
                let mut j: usize = 0;
                while j < n
                    invariant
                        n == d.diagnostics@.len(),
                        j <= n,
                        out@ =~= d.diagnostics@.take(j as int),
                    decreases n - j,
                {
                    out.push(d.diagnostics[j].clone());
                    proof {
                        assert(out@ =~= d.diagnostics@.take(j + 1));
                    }
                    j = j + 1;
                }
                proof {
                    assert(d.diagnostics@.take(n as int) =~= d.diagnostics@);
                }
                out
            },
            None => Vec::new(),
        }
    }

    /// Record the recomputed diagnostics of an open document; reports
    /// whether the path was open.
    pub fn set_diagnostics(&mut self, path: &str, diagnostics: Vec<Diagnostic>) -> (r: bool)
        ensures
            match find_doc(old(self).documents@, path@) {
                Some(i) => {
                    &&& r
                    &&& final(self).documents@.len() == old(self).documents@.len()
                    &&& (forall|j: int|
                        0 <= j < old(self).documents@.len() && j != i ==> final(self).documents@[j]
                            == old(self).documents@[j])
                    &&& final(self).documents@[i].path == old(self).documents@[i].path
                    &&& final(self).documents@[i].version == old(self).documents@[i].version
                    &&& final(self).documents@[i].text == old(self).documents@[i].text
                    &&& final(self).documents@[i].diagnostics == diagnostics
                },
                None => !r && *final(self) == *old(self),
            },
            final(self).schema_cache == old(self).schema_cache,
            final(self).db == old(self).db,
    {
        match self.find_doc_index(path) {
            Some(i) => {
                let doc = Document {
                    path: self.documents[i].path.clone(),
                    version: self.documents[i].version,
                    text: self.documents[i].text.clone(),
                    diagnostics,
                };
                self.documents.set(i, doc);
                true
            },
            None => false,
        }
    }

    /// Publish a freshly built snapshot and return every open path, since
    /// all of them must be recomputed against it. The swap is the single
    /// writer's only mutation: readers see the old value or the new one,
    /// never a mixture.
    pub fn update_schema(&mut self, snapshot: SchemaCache) -> (changed: Vec<String>)
        ensures
            update_schema_post(*old(self), *final(self), snapshot),
            path_views(changed@) == doc_paths(final(self).documents@),
    {
        self.schema_cache = snapshot;
        let n = self.documents.len();
        let mut changed: Vec<String> = Vec::new();
        let mut i: usize = 0;
        while i < n
            invariant
                n == self.documents@.len(),
                i <= n,
                changed@.len() == i,
                forall|j: int| 0 <= j < i ==> changed@[j]@ == self.documents@[j].path@,
            decreases n - i,
        {
            changed.push(self.documents[i].path.clone());
            i = i + 1;
        }
        proof {
            assert(path_views(changed@) =~= doc_paths(self.documents@));
        }
        changed
    }

    /// The snapshot a request reads: always the last published value.
    pub fn snapshot(&self) -> (r: &SchemaCache)
        ensures
            *r == spec_read(*self),
    {
        &self.schema_cache
    }

    /// Whether reconfiguring to this connection string needs a new schema
    /// source, or is a no-op because the active source already matches.
    pub fn wants_reconnect(&self, connection_string: &str) -> (r: bool)
        ensures
            r == spec_wants_reconnect(*self, connection_string@),
    {
        match &self.db {
            Some(d) => !d.connected_to(connection_string),
            None => true,
        }
    }

    /// Install a newly built schema source, handing back the superseded one
    /// so the caller can close it: make-before-break, close-after-swap.
    pub fn install_db(&mut self, db: DbConnection) -> (old_db: Option<DbConnection>)
        ensures
            final(self).db == Some(db),
            old_db == old(self).db,
            final(self).documents == old(self).documents,
            final(self).schema_cache == old(self).schema_cache,
    {
        let old_db = self.db.take();
        self.db = Some(db);
        old_db
    }

    /// Whether a statement can be executed at all: only with an active
    /// schema source.
    pub fn has_db(&self) -> (r: bool)
        ensures
            r == (self.db is Some),
    {
        self.db.is_some()
    }
}

/// Snapshot atomicity: publication replaces the snapshot slot as one value.
/// A read before the swap observes the prior snapshot in full and a read
/// after it observes the new one in full; no read observes a mixture of the
/// two.
pub proof fn lemma_snapshot_atomicity(pre: Session, post: Session, snapshot: SchemaCache)
    requires
        update_schema_post(pre, post, snapshot),
    ensures
        spec_read(pre) == pre.schema_cache,
        spec_read(post) == snapshot,
{
}

/// Version monotonicity: an edit never lowers a stored version, and it is
/// applied — with its path republished — exactly when its version exceeds
/// the stored one.
pub proof fn lemma_version_monotonic(
    pre: Seq<Document>,
    post: Seq<Document>,
    path: Seq<char>,
    version: i32,
    text: Seq<char>,
    changed: Seq<Seq<char>>,
)
    requires
        apply_change_post(pre, post, path, version, text, changed),
        find_doc(pre, path) is Some,
    ensures
        ({
            let i = find_doc(pre, path)->0;
            &&& post[i].version >= pre[i].version
            &&& (changed.len() > 0 <==> version > pre[i].version)
            &&& (version > pre[i].version ==> post[i].version == version)
            &&& (version <= pre[i].version ==> post[i] == pre[i])
        }),
{
}

/// Reconfiguration idempotence: once a schema source for a connection
/// string is installed, a second request for the same string is a no-op —
/// no new connection and no new listener.
pub proof fn lemma_change_db_idempotent(s: Session, connection_string: Seq<char>)
    requires
        s.db matches Some(d) && d.connection_string@ == connection_string,
    ensures
        !spec_wants_reconnect(s, connection_string),
{
}

} // verus!
