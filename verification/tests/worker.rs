use service_updater::ident::PackageIdent;
use service_updater::service::{Service, Topology, UpdateStrategy};
use service_updater::worker::{next_period_start, sleep_interval, Worker};

fn test_ident(version: &str, release: &str) -> PackageIdent {
    PackageIdent::new(
        "core".to_string(),
        "testing".to_string(),
        Some(version.to_string()),
        Some(release.to_string()),
    )
}

fn test_worker() -> Worker {
    Worker {
        current: test_ident("1.0.0", "20181109125930"),
        spec_ident: PackageIdent::new("core".to_string(), "testing".to_string(), None, None),
        builder_url: String::from("https://bldr.habitat.sh"),
        channel: String::from("stable"),
    }
}

#[test]
fn worker_starts_from_the_service() {
    let service = Service {
        service_group: "testing.default".to_string(),
        topology: Topology::Standalone,
        update_strategy: UpdateStrategy::AtOnce,
        pkg_ident: test_ident("1.0.0", "20181109125930"),
        spec_ident: PackageIdent::new("core".to_string(), "testing".to_string(), None, None),
        bldr_url: String::from("https://bldr.habitat.sh"),
        channel: String::from("stable"),
    };
    let worker = Worker::new(&service);
    assert!(worker.current.same_ident(&service.pkg_ident));
    assert!(worker.spec_ident.same_ident(&service.spec_ident));
    assert_eq!(worker.builder_url, service.bldr_url);
    assert_eq!(worker.channel, service.channel);
}

#[test]
fn chase_latest_ignores_older_or_equal_packages() {
    let mut worker = test_worker();

    // The installer returned nothing new.
    assert!(worker.poll_step(None).is_none());
    assert!(worker.current.same_ident(&test_ident("1.0.0", "20181109125930")));

    // An equal package must not be emitted and must not move `current`.
    let equal = test_ident("1.0.0", "20181109125930");
    assert!(worker.poll_step(Some(equal)).is_none());
    assert!(worker.current.same_ident(&test_ident("1.0.0", "20181109125930")));

    // An older package must not be emitted and must not move `current`.
    let older = test_ident("0.9.9", "20181109125930");
    assert!(worker.poll_step(Some(older)).is_none());
    assert!(worker.current.same_ident(&test_ident("1.0.0", "20181109125930")));
}

#[test]
fn chase_latest_emits_a_strictly_newer_package() {
    let mut worker = test_worker();
    let newer = test_ident("1.0.1", "20240601120000");
    let emitted = worker.poll_step(Some(newer)).expect("a newer package is emitted");
    assert!(emitted.same_ident(&test_ident("1.0.1", "20240601120000")));
    assert!(worker.current.same_ident(&test_ident("1.0.1", "20240601120000")));

    // The same version offered again is no longer newer.
    let again = test_ident("1.0.1", "20240601120000");
    assert!(worker.poll_step(Some(again)).is_none());
}

#[test]
fn fetch_exact_emits_whatever_was_installed() {
    let mut worker = test_worker();

    // A failed install is retried, nothing is emitted.
    assert!(worker.fetch_exact_step(None).is_none());
    assert!(worker.current.same_ident(&test_ident("1.0.0", "20181109125930")));

    // Success is emitted even though the target is older than `current`:
    // the mission is to match the leader exactly.
    let target = test_ident("0.9.0", "20180101120000");
    let emitted = worker.fetch_exact_step(Some(target)).expect("the exact package is emitted");
    assert!(emitted.same_ident(&test_ident("0.9.0", "20180101120000")));
    assert!(worker.current.same_ident(&test_ident("0.9.0", "20180101120000")));
}

#[test]
fn schedule_arithmetic_never_goes_backwards() {
    assert_eq!(next_period_start(1_000, 60_000), 61_000);
    assert_eq!(next_period_start(u64::MAX - 10, 60_000), u64::MAX);

    // The attempt took less time than the period: sleep the remainder.
    assert_eq!(sleep_interval(61_000, 121_000), 60_000);
    // The attempt overran the period: never sleep a negative interval.
    assert_eq!(sleep_interval(150_000, 121_000), 0);
    assert_eq!(sleep_interval(121_000, 121_000), 0);
}
