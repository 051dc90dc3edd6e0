use std::cell::RefCell;

use dash_platform::drive::{
    Drive, DriveDocumentInsertMethodVersions, DriveDocumentMethodVersions, DriveError,
    DriveMethodVersions, DriveVersion, Error, PlatformVersion,
};
use dash_platform::time_range::TimeRangeTransform;

const HOUR_MS: u64 = 3_600_000;

/// What a version selects beside the insertion.
const REST: &str = "everything else";

fn version(add_document_for_contract: u16) -> PlatformVersion<&'static str> {
    PlatformVersion {
        drive: DriveVersion {
            methods: DriveMethodVersions {
                document: DriveDocumentMethodVersions {
                    insert: DriveDocumentInsertMethodVersions { add_document_for_contract },
                },
            },
        },
        other: REST,
    }
}

type Seen = (&'static str, bool, u64, bool, Option<u8>, u16, &'static str, Option<u32>);

fn add(selected: u16, fees: Option<&u32>) -> (Result<u64, Error<String>>, Vec<Seen>) {
    let drive = Drive { storage: RefCell::new(Vec::<Seen>::new()) };
    let platform_version = version(selected);
    let outcome = drive.add_document_for_contract(
        "document",
        true,
        77u64,
        false,
        Some(9u8),
        &platform_version,
        fees,
        |drive: &Drive<RefCell<Vec<Seen>>>, info, over, block, apply, tx, version: &PlatformVersion<&'static str>, fees: Option<&u32>| {
            drive.storage.borrow_mut().push((
                info,
                over,
                block,
                apply,
                tx,
                version.drive.methods.document.insert.add_document_for_contract,
                version.other,
                fees.copied(),
            ));
            if info == "document" {
                Ok(1234)
            } else {
                Err(Error::Storage("unexpected".to_string()))
            }
        },
    );
    (outcome, drive.storage.into_inner())
}

#[test]
fn version_zero_is_called_once_with_every_argument() {
    let (outcome, seen) = add(0, Some(&5));
    assert!(matches!(outcome, Ok(1234)));
    assert_eq!(seen, vec![("document", true, 77, false, Some(9), 0, REST, Some(5))]);
}

#[test]
fn unknown_version_is_refused_without_a_call() {
    let (outcome, seen) = add(3, None);
    match outcome {
        Err(Error::Drive(DriveError::UnknownVersionMismatch {
            method,
            known_versions,
            received,
        })) => {
            assert_eq!(method, "add_document_for_contract");
            assert_eq!(known_versions, vec![0]);
            assert_eq!(received, 3);
        }
        other => panic!("expected a version mismatch, got {other:?}"),
    }
    assert!(seen.is_empty());
}

#[test]
fn failure_of_version_zero_is_handed_on() {
    let drive = Drive { storage: () };
    let outcome: Result<u64, Error<String>> = drive.add_document_for_contract(
        (),
        false,
        (),
        true,
        (),
        &version(0),
        None::<&u32>,
        |_: &Drive<()>, _, _, _, _, _, _: &PlatformVersion<&'static str>, _: Option<&u32>| {
            Err(Error::Storage("disk full".to_string()))
        },
    );
    assert!(matches!(outcome, Err(Error::Storage(text)) if text == "disk full"));
}

/// Index entries of one document type, by bucket start and document id.
type Entries = RefCell<Vec<(u64, [u8; 32])>>;

fn count_in_bucket(drive: &Drive<Entries>, bucket: u64) -> usize {
    drive.storage.borrow().iter().filter(|entry| entry.0 == bucket).count()
}

#[test]
fn time_range_insert_fans_out_to_overlapping_buckets_and_delete_removes_them() {
    let platform_version = version(0);
    let drive: Drive<Entries> = Drive { storage: RefCell::new(Vec::new()) };
    let transform = TimeRangeTransform {
        source: "$createdAt".to_string(),
        range_ms: 6 * HOUR_MS,
        step_ms: 2 * HOUR_MS,
        origin_ms: 0,
    };
    assert_eq!(transform.overlap_factor(), 3);

    // A document created at 7h+ falls into the ranges starting at 6h, 4h, 2h.
    let created_at = 7 * HOUR_MS + 123_456;
    let expected_buckets = transform.containing_buckets(created_at);
    assert_eq!(expected_buckets, vec![6 * HOUR_MS, 4 * HOUR_MS, 2 * HOUR_MS]);

    let document_id = [42u8; 32];
    let added: Result<(), Error<String>> = drive.add_document_for_contract(
        (document_id, created_at),
        false,
        (),
        true,
        None::<()>,
        &platform_version,
        None::<&u32>,
        |drive: &Drive<Entries>, info, _, _, _, _, _: &PlatformVersion<&'static str>, _: Option<&u32>| {
            for bucket in transform.containing_buckets(info.1) {
                drive.storage.borrow_mut().push((bucket, info.0));
            }
            Ok(())
        },
    );
    assert!(added.is_ok());

    // The document is found under each of its 3 overlapping buckets.
    for bucket in &expected_buckets {
        assert_eq!(
            count_in_bucket(&drive, *bucket),
            1,
            "document should be indexed under bucket {bucket}"
        );
    }
    // It is NOT stored under the raw timestamp (only under bucket starts)...
    assert_eq!(
        count_in_bucket(&drive, created_at),
        0,
        "document must be indexed under bucket starts, not the raw timestamp"
    );
    // ...nor under a range that does not contain it.
    assert_eq!(count_in_bucket(&drive, 0), 0, "an unrelated bucket must be empty");

    // Deleting the document removes every bucket entry.
    for bucket in transform.containing_buckets(created_at) {
        drive.storage.borrow_mut().retain(|entry| *entry != (bucket, document_id));
    }
    for bucket in &expected_buckets {
        assert_eq!(
            count_in_bucket(&drive, *bucket),
            0,
            "bucket {bucket} should be empty after deletion"
        );
    }
}
