//! Durable mapping between key triples and key information.
//!
//! A provider resolves the logical name of a key into the material it can
//! operate on through this mapping. The [`ManageKeyIDs`] trait is the
//! contract every storage backend must satisfy: at most one record per
//! triple, insert-replace semantics with the replaced record returned, and
//! provider isolation for enumeration. The mapping layer is metadata-only:
//! it stores the opaque provider-side identifier and the key attributes,
//! never key material, and it never inspects the identifier.

pub mod in_memory;

use crate::authenticators::ApplicationName;
use crate::requests::{ProviderID, ResponseStatus};
use vstd::prelude::*;

verus! {

/// Storage backend selected for the key identity mapping in configuration.
#[derive(Copy, Clone, Debug)]
pub enum KeyIdManagerType {
    /// One file per triple under a store directory.
    OnDisk,
}

/// Configuration of one key identity mapping instance.
#[derive(Debug)]
pub struct KeyIdManagerConfig {
    /// Name under which providers refer to this instance.
    pub name: String,
    /// Which backend implementation to construct.
    pub manager_type: KeyIdManagerType,
    /// Directory for backends that persist to disk.
    pub store_path: Option<String>,
}

/// Unique identity of a logical key: the application that owns it, the
/// provider that stores it, and the name the application chose, unique only
/// within the `(application, provider)` pair.
#[derive(Debug, Clone, Eq, Hash)]
pub struct KeyTriple {
    app_name: ApplicationName,
    provider_id: ProviderID,
    key_name: String,
}

/// Mathematical value of a [`KeyTriple`].
pub struct KeyTripleView {
    /// Name of the owning application.
    pub app_name: Seq<char>,
    /// Provider that stores the key.
    pub provider_id: ProviderID,
    /// Application-chosen name of the key.
    pub key_name: Seq<char>,
}

impl View for KeyTriple {
    type V = KeyTripleView;

    closed spec fn view(&self) -> KeyTripleView {
        KeyTripleView {
            app_name: self.app_name@,
            provider_id: self.provider_id,
            key_name: self.key_name@,
        }
    }
}

impl KeyTripleView {
    /// Rendering of a triple with this value, as [`KeyTriple::description`]
    /// builds it.
    pub open spec fn description(self) -> Seq<char> {
        "Application Name: \""@ + self.app_name + "\", Provider ID: "@
            + self.provider_id.name_spec() + ", Key Name: \""@ + self.key_name + "\""@
    }
}

impl KeyTriple {
    /// Creates a new instance of KeyTriple.
    pub fn new(app_name: ApplicationName, provider_id: ProviderID, key_name: String) -> (r:
        KeyTriple)
        ensures
            r@ == (KeyTripleView { app_name: app_name@, provider_id, key_name: key_name@ }),
    {
        KeyTriple { app_name, provider_id, key_name }
    }

    /// Checks if this key belongs to a specific provider.
    pub fn belongs_to_provider(&self, provider_id: ProviderID) -> (r: bool)
        ensures
            r == (self@.provider_id == provider_id),
    {
        self.provider_id == provider_id
    }

    /// The application that owns the key.
    pub fn app_name(&self) -> (r: &ApplicationName)
        ensures
            r@ == self@.app_name,
    {
        &self.app_name
    }

    /// The provider that stores the key.
    pub fn provider_id(&self) -> (r: ProviderID)
        ensures
            r == self@.provider_id,
    {
        self.provider_id
    }

    /// The application-chosen name of the key.
    pub fn key_name(&self) -> (r: &String)
        ensures
            r@ == self@.key_name,
    {
        &self.key_name
    }

    /// Human-readable rendering of the triple, for logs; the type cannot
    /// implement `Display` itself.
    pub fn description(&self) -> (r: String)
        ensures
            r@ == self@.description(),
    {
        let mut rendered = String::from_str("Application Name: \"");
        rendered.append(self.app_name.name().as_str());
        rendered.append("\", Provider ID: ");
        rendered.append(self.provider_id.name());
        rendered.append(", Key Name: \"");
        rendered.append(self.key_name.as_str());
        rendered.append("\"");
        proof {
            assert(rendered@ =~= self@.description());
        }
        rendered
    }
}

impl PartialEq for KeyTriple {
    /// Two triples are equal exactly when all three fields are equal; no
    /// normalization or case folding is applied.
    fn eq(&self, other: &Self) -> (r: bool) {
        self.app_name == other.app_name && self.provider_id == other.provider_id
            && self.key_name == other.key_name
    }
}

impl vstd::std_specs::cmp::PartialEqSpecImpl for KeyTriple {
    open spec fn obeys_eq_spec() -> bool {
        true
    }

    open spec fn eq_spec(&self, other: &Self) -> bool {
        self@ == other@
    }
}

/// Type of the cryptographic key a record describes.
#[derive(Copy, Clone, Debug, PartialEq, Eq, Structural)]
pub enum KeyType {
    /// Unstructured bytes.
    RawData,
    /// An AES key.
    Aes,
    /// An RSA key pair.
    RsaKeyPair,
    /// The public part of an RSA key pair.
    RsaPublicKey,
    /// An elliptic-curve key pair.
    EccKeyPair,
    /// The public part of an elliptic-curve key pair.
    EccPublicKey,
}

/// Operations a key may be used for.
#[derive(Copy, Clone, Debug, PartialEq, Eq, Structural)]
pub struct UsageFlags {
    /// The key may leave the provider in the clear.
    pub export: bool,
    /// The key may be copied within the provider.
    pub copy: bool,
    /// The provider may cache the key outside its store.
    pub cache: bool,
    /// The key may encrypt messages.
    pub encrypt: bool,
    /// The key may decrypt messages.
    pub decrypt: bool,
    /// The key may sign messages.
    pub sign_message: bool,
    /// The key may verify message signatures.
    pub verify_message: bool,
    /// The key may sign pre-computed hashes.
    pub sign_hash: bool,
    /// The key may verify signatures over pre-computed hashes.
    pub verify_hash: bool,
    /// Other keys may be derived from this key.
    pub key_derivation: bool,
}

/// Usage policy of a key: what it may do and with which algorithm.
#[derive(Copy, Clone, Debug, PartialEq, Eq, Structural)]
pub struct KeyPolicy {
    /// Permitted operations.
    pub usage_flags: UsageFlags,
    /// Numeric identifier of the permitted algorithm; opaque to this layer.
    pub permitted_algorithm: u64,
}

/// Metadata of a key, treated as an opaque structured value by the mapping
/// layer: it is stored and returned whole, never inspected or mutated in
/// place.
#[derive(Copy, Clone, Debug, PartialEq, Eq, Structural)]
pub struct KeyAttributes {
    /// Type of the key.
    pub key_type: KeyType,
    /// Size of the key in bits.
    pub key_bits: u32,
    /// Usage policy of the key.
    pub policy: KeyPolicy,
}

/// Information stored about a key: the opaque identifier the owning
/// provider resolves within its own storage, plus the key's attributes.
#[derive(Debug, Clone)]
pub struct KeyInfo {
    /// Reference to a key in the provider; only the provider interprets it.
    pub id: Vec<u8>,
    /// Attributes of the key.
    pub attributes: KeyAttributes,
}

/// Mathematical value of a [`KeyInfo`].
pub struct KeyInfoView {
    /// Bytes of the provider-side identifier.
    pub id: Seq<u8>,
    /// Attributes of the key.
    pub attributes: KeyAttributes,
}

impl View for KeyInfo {
    type V = KeyInfoView;

    open spec fn view(&self) -> KeyInfoView {
        KeyInfoView { id: self.id@, attributes: self.attributes }
    }
}

impl PartialEq for KeyInfo {
    /// Two records are equal exactly when identifier and attributes are.
    fn eq(&self, other: &Self) -> (r: bool) {
        let ids_equal = self.id == other.id;
        proof {
            if ids_equal {
                assert(self.id@ =~= other.id@);
            }
        }
        ids_equal && self.attributes == other.attributes
    }
}

impl vstd::std_specs::cmp::PartialEqSpecImpl for KeyInfo {
    open spec fn obeys_eq_spec() -> bool {
        true
    }

    open spec fn eq_spec(&self, other: &Self) -> bool {
        self@ == other@
    }
}

impl Eq for KeyInfo {}

/// Converts the error string returned by the ManageKeyIDs methods to the
/// generic key-ID-manager status: callers of the mapping never see
/// backend-specific error detail.
#[allow(unused_variables)]
pub fn to_response_status(error_string: String) -> (r: ResponseStatus)
    ensures
        r == ResponseStatus::KeyIDManagerError,
{
    ResponseStatus::KeyIDManagerError
}

/// Management interface for the key name to key info mapping.
///
/// The mapping a backend maintains is modelled by [`Self::mapping`], a table
/// from triple values to record values; [`Self::inv`] is the backend's own
/// well-formedness, established by its constructor and preserved by every
/// operation. A backend may fail with a textual error on any operation; the
/// clauses below bind it only when it succeeds. Once an insert or remove
/// returns success, the new state must be durable: flushing before returning
/// is the backend's responsibility and is not modelled here.
pub trait ManageKeyIDs: Sized {
    /// The table of records the backend currently holds.
    spec fn mapping(&self) -> Map<KeyTripleView, KeyInfoView>;

    /// Well-formedness of the backend's representation.
    spec fn inv(&self) -> bool;

    /// Returns a reference to the key info recorded for this triple, or
    /// `None` (not an error) if there is none.
    fn get(&self, key_triple: &KeyTriple) -> (r: Result<Option<&KeyInfo>, String>)
        requires
            self.inv(),
        ensures
            (r matches Ok(found) ==> match found {
                Some(info) => self.mapping().contains_key(key_triple@) && info@
                    == self.mapping()[key_triple@],
                None => !self.mapping().contains_key(key_triple@),
            }),
    ;

    /// Returns the triples recorded for this provider, each exactly the
    /// triples whose provider matches, in no guaranteed order.
    fn get_all(&self, provider_id: ProviderID) -> (r: Result<Vec<&KeyTriple>, String>)
        requires
            self.inv(),
        ensures
            (r matches Ok(triples) ==> ({
                &&& forall|l: int|
                    0 <= l < triples@.len() ==> (#[trigger] triples@[l]@).provider_id == provider_id
                        && self.mapping().contains_key(triples@[l]@)
                &&& forall|k: KeyTripleView|
                    #[trigger] self.mapping().contains_key(k) && k.provider_id == provider_id
                        ==> exists|l: int| 0 <= l < triples@.len() && triples@[l]@ == k
                &&& forall|l1: int, l2: int|
                    0 <= l1 < l2 < triples@.len() ==> triples@[l1]@ != triples@[l2]@
            })),
    ;

    /// Records a mapping between the triple and the info. If the triple was
    /// already recorded, the whole record is replaced and the old one is
    /// returned; otherwise `None` is returned.
    fn insert(&mut self, key_triple: KeyTriple, key_info: KeyInfo) -> (r: Result<
        Option<KeyInfo>,
        String,
    >)
        requires
            old(self).inv(),
        ensures
            final(self).inv(),
            (r matches Ok(replaced) ==> ({
                &&& final(self).mapping() == old(self).mapping().insert(key_triple@, key_info@)
                &&& match replaced {
                    Some(info) => old(self).mapping().contains_key(key_triple@) && info@
                        == old(self).mapping()[key_triple@],
                    None => !old(self).mapping().contains_key(key_triple@),
                }
            })),
    ;

    /// Removes the record of a triple and returns it; does nothing and
    /// returns `None` (not an error) if there is none.
    fn remove(&mut self, key_triple: &KeyTriple) -> (r: Result<Option<KeyInfo>, String>)
        requires
            old(self).inv(),
        ensures
            final(self).inv(),
            (r matches Ok(removed) ==> ({
                &&& final(self).mapping() == old(self).mapping().remove(key_triple@)
                &&& match removed {
                    Some(info) => old(self).mapping().contains_key(key_triple@) && info@
                        == old(self).mapping()[key_triple@],
                    None => !old(self).mapping().contains_key(key_triple@),
                }
            })),
    ;

    /// Checks whether a record exists for this triple, without materializing
    /// the record.
    fn exists_key(&self, key_triple: &KeyTriple) -> (r: Result<bool, String>)
        requires
            self.inv(),
        ensures
            (r matches Ok(found) ==> found == self.mapping().contains_key(key_triple@)),
    ;
}

/// Law: inserting a record and then reading the same triple yields exactly
/// the record inserted.
pub proof fn lemma_insert_then_get(
    mapping: Map<KeyTripleView, KeyInfoView>,
    triple: KeyTripleView,
    info: KeyInfoView,
)
    ensures
        mapping.insert(triple, info).contains_key(triple),
        mapping.insert(triple, info)[triple] == info,
{
}

/// Law: inserting over an existing triple replaces the whole record — the
/// second insert hands back the first record, and a later read sees only the
/// second.
pub proof fn lemma_insert_replaces(
    mapping: Map<KeyTripleView, KeyInfoView>,
    triple: KeyTripleView,
    first: KeyInfoView,
    second: KeyInfoView,
)
    ensures
        mapping.insert(triple, first)[triple] == first,
        mapping.insert(triple, first).insert(triple, second)[triple] == second,
        mapping.insert(triple, first).insert(triple, second) == mapping.insert(triple, second),
{
    assert(mapping.insert(triple, first).insert(triple, second) =~= mapping.insert(
        triple,
        second,
    ));
}

/// Law: removing a triple that was never recorded changes nothing, and no
/// record exists for it.
pub proof fn lemma_absent_triple(mapping: Map<KeyTripleView, KeyInfoView>, triple: KeyTripleView)
    requires
        !mapping.contains_key(triple),
    ensures
        mapping.remove(triple) == mapping,
{
    assert(mapping.remove(triple) =~= mapping);
}

/// Law: removing a triple right after inserting it hands back exactly the
/// record inserted, and a later read finds nothing for the triple.
pub proof fn lemma_insert_then_remove(
    mapping: Map<KeyTripleView, KeyInfoView>,
    triple: KeyTripleView,
    info: KeyInfoView,
)
    ensures
        mapping.insert(triple, info)[triple] == info,
        !mapping.insert(triple, info).remove(triple).contains_key(triple),
        mapping.insert(triple, info).remove(triple) == mapping.remove(triple),
{
    assert(mapping.insert(triple, info).remove(triple) =~= mapping.remove(triple));
}

/// Law: enumeration is isolated per provider — a record inserted for one
/// provider never appears among the triples of another.
pub proof fn lemma_provider_isolation(
    mapping: Map<KeyTripleView, KeyInfoView>,
    triple: KeyTripleView,
    info: KeyInfoView,
    provider_id: ProviderID,
)
    requires
        triple.provider_id != provider_id,
    ensures
        forall|k: KeyTripleView|
            k.provider_id == provider_id ==> (#[trigger] mapping.insert(
                triple,
                info,
            ).contains_key(k) == mapping.contains_key(k)),
{
}

} // verus!
