use jtp::{InvalidArgument, RejectedTaskHandler, ThreadPoolBuilder};
use std::time::Duration;

#[test]
fn test_valid_arguments() {
    let thread_pool = ThreadPoolBuilder::default()
        .max_pool_size(7)
        .channel_capacity(3)
        .build();
    assert!(thread_pool.is_err());

    let thread_pool = ThreadPoolBuilder::default()
        .max_pool_size(6)
        .core_pool_size(7)
        .build();
    assert!(thread_pool.is_err());

    let thread_pool = ThreadPoolBuilder::default().core_pool_size(0).build();
    assert!(thread_pool.is_err());

    ThreadPoolBuilder::default().build().unwrap();
}

#[test]
fn builder_errors_name_the_first_broken_argument() {
    let err = ThreadPoolBuilder::default()
        .channel_capacity(5)
        .max_pool_size(20)
        .core_pool_size(30)
        .build()
        .err()
        .unwrap();
    assert_eq!(
        err.reason,
        InvalidArgument::ChannelBelowMaxPoolSize { channel_capacity: 5, max_pool_size: 20 }
    );

    let err = ThreadPoolBuilder::default()
        .max_pool_size(5)
        .core_pool_size(6)
        .build()
        .err()
        .unwrap();
    assert_eq!(
        err.reason,
        InvalidArgument::MaxPoolBelowCorePoolSize { max_pool_size: 5, core_pool_size: 6 }
    );

    let err = ThreadPoolBuilder::default()
        .max_pool_size(5)
        .core_pool_size(0)
        .build()
        .err()
        .unwrap();
    assert_eq!(err.reason, InvalidArgument::ZeroCorePoolSize);
}

#[test]
fn builder_accepts_the_boundaries() {
    let pool = ThreadPoolBuilder::new()
        .channel_capacity(3)
        .max_pool_size(3)
        .core_pool_size(3)
        .build();
    assert!(pool.is_ok());

    let pool = ThreadPoolBuilder::new()
        .channel_capacity(1)
        .max_pool_size(1)
        .core_pool_size(1)
        .build();
    assert!(pool.is_ok());
}

#[test]
fn default_configuration_follows_the_machine() {
    let builder = ThreadPoolBuilder::default();
    let config = builder.config();
    let cpus = num_cpus::get_physical();
    assert_eq!(config.channel_capacity, 1000);
    assert_eq!(config.max_pool_size, cpus);
    assert_eq!(config.core_pool_size, std::cmp::max(1, cpus / 2));
    assert_eq!(config.rejected_task_handler, RejectedTaskHandler::Abort);
    let pool = builder.build().unwrap();
    assert_eq!(pool.keep_alive_time(), Duration::from_secs(1));
}

#[test]
fn setters_change_only_their_own_field() {
    let builder = ThreadPoolBuilder::new()
        .channel_capacity(100)
        .max_pool_size(10)
        .core_pool_size(4)
        .keep_alive_time(Duration::from_millis(250))
        .rejected_handler(RejectedTaskHandler::CallerRuns);
    let config = builder.config();
    assert_eq!(config.channel_capacity, 100);
    assert_eq!(config.max_pool_size, 10);
    assert_eq!(config.core_pool_size, 4);
    assert_eq!(config.rejected_task_handler, RejectedTaskHandler::CallerRuns);
    let pool = builder.build().unwrap();
    assert_eq!(pool.keep_alive_time(), Duration::from_millis(250));
}

#[test]
fn with_physical_cpus_gives_the_default_configuration() {
    let builder = ThreadPoolBuilder::with_physical_cpus(7);
    let config = builder.config();
    assert_eq!(config.channel_capacity, 1000);
    assert_eq!(config.max_pool_size, 7);
    assert_eq!(config.core_pool_size, 3);
    assert_eq!(config.rejected_task_handler, RejectedTaskHandler::Abort);
    assert_eq!(builder.build().unwrap().keep_alive_time(), Duration::from_secs(1));

    let config = ThreadPoolBuilder::with_physical_cpus(1).config();
    assert_eq!(config.max_pool_size, 1);
    assert_eq!(config.core_pool_size, 1);
}
