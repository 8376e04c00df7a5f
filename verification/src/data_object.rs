//! Data objects: concrete input/output blobs associated with a graph and a
//! function, with deterministic, collision-resistant derived identities.
//!
//! A data object's id is a pure function of (namespace, graph, function,
//! payload hash, payload path): re-ingesting byte-identical content at the
//! same path under the same graph and namespace yields the same id, so
//! deduplication holds by construction.

use vstd::prelude::*;

use crate::errors::DataModelError;
use crate::hashing::IdHasher;
use crate::hashing::digest_of_strs;
use crate::keys::push_part;
use crate::keys::sep;

verus! {

/// A content descriptor: where a blob lives, how large it is, and the
/// digest of its bytes (checked by an external content store).
#[derive(Debug, Clone, PartialEq)]
pub struct DataPayload {
    pub path: String,
    pub size: u64,
    pub sha256_hash: String,
}

/// The digest folded into a data object's ingestion key: an order-sensitive
/// hash of (namespace, graph, payload hash, payload path).
pub open spec fn ingestion_digest(
    ns: Seq<char>,
    cg: Seq<char>,
    sha: Seq<char>,
    path: Seq<char>,
) -> Seq<char> {
    digest_of_strs(seq![ns, cg, sha, path])
}

/// A data object's id: an order-sensitive hash of (namespace, graph,
/// function, payload hash, payload path).
pub open spec fn data_object_id(
    ns: Seq<char>,
    cg: Seq<char>,
    f: Seq<char>,
    sha: Seq<char>,
    path: Seq<char>,
) -> Seq<char> {
    digest_of_strs(seq![ns, cg, f, sha, path])
}

/// The digest folded into a function-output key: as the ingestion digest,
/// but additionally covering the function name and the ingestion object's
/// key, so the same physical bytes produced by different functions or
/// different upstream objects get distinct keys.
pub open spec fn fn_output_digest(
    ns: Seq<char>,
    cg: Seq<char>,
    f: Seq<char>,
    sha: Seq<char>,
    path: Seq<char>,
    ingestion_key: Seq<char>,
) -> Seq<char> {
    digest_of_strs(seq![ns, cg, f, sha, path, ingestion_key])
}

/// Repeated derivations from an equal namespace, graph, and payload yield
/// the identical ingestion digest.
pub proof fn lemma_ingestion_id_deterministic(
    ns1: Seq<char>,
    cg1: Seq<char>,
    sha1: Seq<char>,
    path1: Seq<char>,
    ns2: Seq<char>,
    cg2: Seq<char>,
    sha2: Seq<char>,
    path2: Seq<char>,
)
    requires
        ns1 == ns2,
        cg1 == cg2,
        sha1 == sha2,
        path1 == path2,
    ensures
        ingestion_digest(ns1, cg1, sha1, path1) == ingestion_digest(ns2, cg2, sha2, path2),
{
}

/// A concrete input/output blob tied to a graph and a function.
#[derive(Debug, Clone, PartialEq)]
pub struct DataObject {
    pub id: String,
    pub namespace: String,
    pub compute_graph_name: String,
    pub compute_fn_name: String,
    pub payload: DataPayload,
}

impl DataObject {
    /// The storage key under which this object is recorded at ingestion:
    /// `namespace_graphname_digest`.
    pub fn ingestion_object_key(&self) -> (r: String)
        ensures
            r@ == self.namespace@ + sep() + self.compute_graph_name@ + sep() + ingestion_digest(
                self.namespace@,
                self.compute_graph_name@,
                self.payload.sha256_hash@,
                self.payload.path@,
            ),
    {
        let mut h = IdHasher::new();
        h.write_str(self.namespace.as_str());
        h.write_str(self.compute_graph_name.as_str());
        h.write_str(self.payload.sha256_hash.as_str());
        h.write_str(self.payload.path.as_str());
        proof {
            assert(h.parts() =~= seq![
                self.namespace@,
                self.compute_graph_name@,
                self.payload.sha256_hash@,
                self.payload.path@,
            ]);
        }
        let digest = h.digest();
        let mut key = self.namespace.clone();
        push_part(&mut key, self.compute_graph_name.as_str());
        push_part(&mut key, digest.as_str());
        key
    }

    /// The storage key for this object as the output of a function applied
    /// to an ingested object:
    /// `namespace_graphname_ingestionkey_fnname_digest`.
    pub fn fn_output_key(&self, ingestion_object_id: &str) -> (r: String)
        ensures
            r@ == self.namespace@ + sep() + self.compute_graph_name@ + sep() + ingestion_object_id@
                + sep() + self.compute_fn_name@ + sep() + fn_output_digest(
                self.namespace@,
                self.compute_graph_name@,
                self.compute_fn_name@,
                self.payload.sha256_hash@,
                self.payload.path@,
                ingestion_object_id@,
            ),
    {
        let mut h = IdHasher::new();
        h.write_str(self.namespace.as_str());
        h.write_str(self.compute_graph_name.as_str());
        h.write_str(self.compute_fn_name.as_str());
        h.write_str(self.payload.sha256_hash.as_str());
        h.write_str(self.payload.path.as_str());
        h.write_str(ingestion_object_id);
        proof {
            assert(h.parts() =~= seq![
                self.namespace@,
                self.compute_graph_name@,
                self.compute_fn_name@,
                self.payload.sha256_hash@,
                self.payload.path@,
                ingestion_object_id@,
            ]);
        }
        let digest = h.digest();
        let mut key = self.namespace.clone();
        push_part(&mut key, self.compute_graph_name.as_str());
        push_part(&mut key, ingestion_object_id);
        push_part(&mut key, self.compute_fn_name.as_str());
        push_part(&mut key, digest.as_str());
        key
    }
}

/// Collects the attributes of a [`DataObject`] and derives its id; building
/// fails, naming the field, when a required attribute was never supplied.
#[derive(Debug, Clone, PartialEq)]
pub struct DataObjectBuilder {
    pub namespace: Option<String>,
    pub compute_graph_name: Option<String>,
    pub compute_fn_name: Option<String>,
    pub payload: Option<DataPayload>,
}

impl Default for DataObjectBuilder {
    fn default() -> (r: Self)
        ensures
            r == (DataObjectBuilder {
                namespace: None,
                compute_graph_name: None,
                compute_fn_name: None,
                payload: None,
            }),
    {
        DataObjectBuilder {
            namespace: None,
            compute_graph_name: None,
            compute_fn_name: None,
            payload: None,
        }
    }
}

impl DataObjectBuilder {
    /// The error that `build` reports, if a required field is missing:
    /// the first unset field in declaration order.
    pub open spec fn first_missing(&self) -> Option<DataModelError> {
        if self.namespace is None {
            Some(DataModelError::NamespaceMissing)
        } else if self.compute_graph_name is None {
            Some(DataModelError::ComputeGraphNameMissing)
        } else if self.compute_fn_name is None {
            Some(DataModelError::ComputeFnNameMissing)
        } else if self.payload is None {
            Some(DataModelError::PayloadMissing)
        } else {
            None
        }
    }

    pub fn namespace(self, value: String) -> (r: Self)
        ensures
            r == (DataObjectBuilder { namespace: Some(value), ..self }),
    {
        DataObjectBuilder { namespace: Some(value), ..self }
    }

    pub fn compute_graph_name(self, value: String) -> (r: Self)
        ensures
            r == (DataObjectBuilder { compute_graph_name: Some(value), ..self }),
    {
        DataObjectBuilder { compute_graph_name: Some(value), ..self }
    }

    pub fn compute_fn_name(self, value: String) -> (r: Self)
        ensures
            r == (DataObjectBuilder { compute_fn_name: Some(value), ..self }),
    {
        DataObjectBuilder { compute_fn_name: Some(value), ..self }
    }

    pub fn payload(self, value: DataPayload) -> (r: Self)
        ensures
            r == (DataObjectBuilder { payload: Some(value), ..self }),
    {
        DataObjectBuilder { payload: Some(value), ..self }
    }

    /// Builds the data object, deriving its id from (namespace, graph,
    /// function, payload hash, payload path); fails with a field-naming
    /// error when a required field was never supplied.
    pub fn build(&self) -> (r: Result<DataObject, DataModelError>)
        ensures
            r is Ok <==> self.first_missing() is None,
            r matches Ok(o) ==> {
                &&& Some(o.namespace) == self.namespace
                &&& Some(o.compute_graph_name) == self.compute_graph_name
                &&& Some(o.compute_fn_name) == self.compute_fn_name
                &&& Some(o.payload) == self.payload
                &&& o.id@ == data_object_id(
                    o.namespace@,
                    o.compute_graph_name@,
                    o.compute_fn_name@,
                    o.payload.sha256_hash@,
                    o.payload.path@,
                )
            },
            r matches Err(e) ==> Some(e) == self.first_missing(),
    {
        let namespace = match &self.namespace {
            Some(v) => v.clone(),
            None => {
                return Err(DataModelError::NamespaceMissing);
            },
        };
        let compute_graph_name = match &self.compute_graph_name {
            Some(v) => v.clone(),
            None => {
                return Err(DataModelError::ComputeGraphNameMissing);
            },
        };
        let compute_fn_name = match &self.compute_fn_name {
            Some(v) => v.clone(),
            None => {
                return Err(DataModelError::ComputeFnNameMissing);
            },
        };
        let payload = match &self.payload {
            Some(v) => DataPayload {
                path: v.path.clone(),
                size: v.size,
                sha256_hash: v.sha256_hash.clone(),
            },
            None => {
                return Err(DataModelError::PayloadMissing);
            },
        };
        proof {
            assert(self.payload matches Some(p) && payload == p);
        }
        let mut h = IdHasher::new();
        h.write_str(namespace.as_str());
        h.write_str(compute_graph_name.as_str());
        h.write_str(compute_fn_name.as_str());
        h.write_str(payload.sha256_hash.as_str());
        h.write_str(payload.path.as_str());
        proof {
            assert(h.parts() =~= seq![
                namespace@,
                compute_graph_name@,
                compute_fn_name@,
                payload.sha256_hash@,
                payload.path@,
            ]);
        }
        let id = h.digest();
        Ok(DataObject { id, namespace, compute_graph_name, compute_fn_name, payload })
    }
}

} // verus!
