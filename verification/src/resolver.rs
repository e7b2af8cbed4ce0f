//! Looks up the host and the bucket that a job names.

use crate::config::{
    BackblazeConfig, BackblazeConfigView, BackupConfig, BackupConfigView, Config, ConfigView,
    DatabaseConfig, DatabaseConfigView,
};
use crate::error::{Error, ErrorView};
use vstd::prelude::*;

verus! {

/// The host and the bucket of `job` in `config`. A job whose host is missing
/// is reported for its host, whether or not its bucket is there.
pub open spec fn resolved(job: BackupConfigView, config: ConfigView) -> Result<
    (DatabaseConfigView, BackblazeConfigView),
    ErrorView,
> {
    if !config.hosts.contains_key(job.db_host) {
        Err(ErrorView::BackupHostConfigError(job.db_host, job.db_name))
    } else if !config.buckets.contains_key(job.bucket) {
        Err(ErrorView::BucketConfigError(job.bucket, job.db_name))
    } else {
        Ok((config.hosts[job.db_host], config.buckets[job.bucket]))
    }
}

/// Finds the host and the bucket of `job`. Reads `config` and touches
/// nothing else.
pub fn resolve<'a>(job: &BackupConfig, config: &'a Config) -> (found: Result<
    (&'a DatabaseConfig, &'a BackblazeConfig),
    Error,
>)
    ensures
        match found {
            Ok((host, bucket)) => resolved(job@, config@) == Ok::<
                (DatabaseConfigView, BackblazeConfigView),
                ErrorView,
            >((host@, bucket@)),
            Err(error) => resolved(job@, config@) == Err::<
                (DatabaseConfigView, BackblazeConfigView),
                ErrorView,
            >(error@),
        },
{
    match config.hosts.get(&job.db_host) {
        None => Err(Error::BackupHostConfigError(job.db_host.clone(), job.db_name.clone())),
        Some(host) => match config.buckets.get(&job.bucket) {
            None => Err(Error::BucketConfigError(job.bucket.clone(), job.db_name.clone())),
            Some(bucket) => Ok((host, bucket)),
        },
    }
}

} // verus!
