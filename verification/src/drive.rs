//! Version-dispatched document insertion.

use vstd::prelude::*;

verus! {

/// The number by which a platform version selects one implementation of a
/// method.
pub type FeatureVersion = u16;

/// A platform version: the method versions that it selects for the drive, and
/// whatever else it selects. The drive reads only its own part, and hands the
/// whole version on.
#[derive(Clone, Copy, Debug)]
pub struct PlatformVersion<V> {
    pub drive: DriveVersion,
    pub other: V,
}

#[derive(Clone, Copy, Debug)]
pub struct DriveVersion {
    pub methods: DriveMethodVersions,
}

#[derive(Clone, Copy, Debug)]
pub struct DriveMethodVersions {
    pub document: DriveDocumentMethodVersions,
}

#[derive(Clone, Copy, Debug)]
pub struct DriveDocumentMethodVersions {
    pub insert: DriveDocumentInsertMethodVersions,
}

#[derive(Clone, Copy, Debug)]
pub struct DriveDocumentInsertMethodVersions {
    pub add_document_for_contract: FeatureVersion,
}

/// Errors of the drive itself.
#[derive(Debug)]
pub enum DriveError {
    /// A platform version selects a method version that does not exist.
    UnknownVersionMismatch {
        /// The method that was called.
        method: String,
        /// The versions of it that exist.
        known_versions: Vec<FeatureVersion>,
        /// The version that was asked for.
        received: FeatureVersion,
    },
}

/// What an operation on the drive fails with: an error of the drive, or one
/// of the storage beneath it.
#[derive(Debug)]
pub enum Error<E> {
    Drive(DriveError),
    Storage(E),
}

impl<E> Error<E> {
    /// This error says that `method` has no version `received`, only those in
    /// `known_versions`.
    pub open spec fn is_unknown_version_mismatch(
        &self,
        method: Seq<char>,
        known_versions: Seq<FeatureVersion>,
        received: FeatureVersion,
    ) -> bool {
        match self {
            Error::Drive(
                DriveError::UnknownVersionMismatch { method: m, known_versions: k, received: r },
            ) => m@ == method && k@ == known_versions && *r == received,
            Error::Storage(_) => false,
        }
    }
}

/// The document store, over the storage that holds its trees.
pub struct Drive<S> {
    pub storage: S,
}

impl<S> Drive<S> {
    /// Adds a document to a contract, by the version of the insertion that
    /// `platform_version` selects.
    ///
    /// Version `0` is the only one. It is handed in as `insert_v0`, is called
    /// once with every argument as it came, and its outcome is returned. For
    /// any other version nothing is called, and the error names the method,
    /// the version that exists and the version that was asked for.
    pub fn add_document_for_contract<D, B, T, V, C, R, E, F>(
        &self,
        document_and_contract_info: D,
        override_document: bool,
        block_info: B,
        apply: bool,
        transaction: T,
        platform_version: &PlatformVersion<V>,
        previous_fee_versions: Option<&C>,
        insert_v0: F,
    ) -> (outcome: Result<R, Error<E>>) where
        F: FnOnce(&Drive<S>, D, bool, B, bool, T, &PlatformVersion<V>, Option<&C>) -> Result<
            R,
            Error<E>,
        >,

        requires
            platform_version.drive.methods.document.insert.add_document_for_contract == 0
                ==> call_requires(
                insert_v0,
                (
                    self,
                    document_and_contract_info,
                    override_document,
                    block_info,
                    apply,
                    transaction,
                    platform_version,
                    previous_fee_versions,
                ),
            ),
        ensures
            platform_version.drive.methods.document.insert.add_document_for_contract == 0
                ==> call_ensures(
                insert_v0,
                (
                    self,
                    document_and_contract_info,
                    override_document,
                    block_info,
                    apply,
                    transaction,
                    platform_version,
                    previous_fee_versions,
                ),
                outcome,
            ),
            platform_version.drive.methods.document.insert.add_document_for_contract != 0
                ==> outcome is Err && outcome->Err_0.is_unknown_version_mismatch(
                "add_document_for_contract"@,
                seq![0u16],
                platform_version.drive.methods.document.insert.add_document_for_contract,
            ),
            platform_version.drive.methods.document.insert.add_document_for_contract != 0 ==> {
                &&& outcome matches Err(Error::Drive(DriveError::UnknownVersionMismatch {
                    method,
                    known_versions,
                    received,
                }))
                &&& method@ == "add_document_for_contract"@
                &&& known_versions@.len() == 1 && known_versions@[0] == 0
                &&& received
                    == platform_version.drive.methods.document.insert.add_document_for_contract
            },
    {
        let version: FeatureVersion =
            platform_version.drive.methods.document.insert.add_document_for_contract;
        if version == 0 {
            insert_v0(
                self,
                document_and_contract_info,
                override_document,
                block_info,
                apply,
                transaction,
                platform_version,
                previous_fee_versions,
            )
        } else {
            let known_versions: Vec<FeatureVersion> = vec![0];
            assert(known_versions@ =~= seq![0u16]);
            Err(
                Error::Drive(
                    DriveError::UnknownVersionMismatch {
                        method: "add_document_for_contract".to_string(),
                        known_versions,
                        received: version,
                    },
                ),
            )
        }
    }
}

/// An error about an unknown version is one of the drive, and tells the method,
/// the versions that exist and the version that was asked for, as they are.
pub proof fn law_version_mismatch_tells_what_was_asked_for<E>(
    error: Error<E>,
    method: Seq<char>,
    known_versions: Seq<FeatureVersion>,
    received: FeatureVersion,
)
    requires
        error.is_unknown_version_mismatch(method, known_versions, received),
    ensures
        error matches Error::Drive(DriveError::UnknownVersionMismatch {
            method: m,
            known_versions: k,
            received: r,
        }) && m@ == method && k@ == known_versions && r == received,
{
}

/// For version zero, what is returned is an answer of the insertion to every
/// argument as it came. Any other version is refused, whatever the arguments
/// are, and is told back with the one version that exists.
pub proof fn law_version_decides_what_is_returned<S, D, B, T, V, C, R, E, F>(
    drive: Drive<S>,
    document_and_contract_info: D,
    override_document: bool,
    block_info: B,
    apply: bool,
    transaction: T,
    platform_version: PlatformVersion<V>,
    previous_fee_versions: Option<&C>,
    insert_v0: F,
    outcome: Result<R, Error<E>>,
) where
    F: FnOnce(&Drive<S>, D, bool, B, bool, T, &PlatformVersion<V>, Option<&C>) -> Result<
        R,
        Error<E>,
    >,

    requires
        call_ensures(
            Drive::<S>::add_document_for_contract::<D, B, T, V, C, R, E, F>,
            (
                &drive,
                document_and_contract_info,
                override_document,
                block_info,
                apply,
                transaction,
                &platform_version,
                previous_fee_versions,
                insert_v0,
            ),
            outcome,
        ),
    ensures
        platform_version.drive.methods.document.insert.add_document_for_contract == 0
            ==> call_ensures(
            insert_v0,
            (
                &drive,
                document_and_contract_info,
                override_document,
                block_info,
                apply,
                transaction,
                &platform_version,
                previous_fee_versions,
            ),
            outcome,
        ),
        platform_version.drive.methods.document.insert.add_document_for_contract != 0 ==> {
            &&& outcome matches Err(Error::Drive(DriveError::UnknownVersionMismatch {
                method,
                known_versions,
                received,
            }))
            &&& method@ == "add_document_for_contract"@
            &&& known_versions@.len() == 1 && known_versions@[0] == 0
            &&& received
                == platform_version.drive.methods.document.insert.add_document_for_contract
        },
{
}

} // verus!
