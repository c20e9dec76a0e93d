//! Starting an account from what a foreign caller hands over. A null pointer
//! arrives here as `None`, and a configuration as what `serde_json::from_str` made
//! of its text.

use vstd::prelude::*;

use crate::account::{Backend, IpfsIdentity};
use crate::config::Config;
use crate::error::WarpError;
use crate::startup::Startup;

verus! {

/// Whether `tesseract` is the key store that was handed over, or a default one
/// where none was.
pub open spec fn is_given_or_default<T: Default>(given: Option<T>, tesseract: T) -> bool {
    match given {
        Some(same) => tesseract == same,
        None => call_ensures(T::default, (), tesseract),
    }
}

fn given_or_default<T: Default>(given: Option<T>) -> (r: T)
    ensures
        is_given_or_default(given, r),
{
    match given {
        Some(tesseract) => tesseract,
        None => T::default(),
    }
}

/// Starts a temporary account. It needs neither a cache nor a key store nor a
/// configuration; a configuration that cannot be read, or that has a path, is an
/// error.
pub fn multipass_mp_ipfs_temporary<B: Backend>(
    pocketdimension: Option<B::Cache>,
    tesseract: Option<B::Tesseract>,
    config: Option<Result<Config, serde_json::Error>>,
) -> (r: Result<Startup<B>, WarpError>) where B::Tesseract: Default
    ensures
        match config {
            Some(Err(error)) => r == Err::<Startup<B>, WarpError>(WarpError::SerdeJson(error)),
            Some(Ok(given)) => if given.path is Some {
                r matches Err(error) && error.says("Path cannot be set"@)
            } else {
                r matches Ok(Startup::RetrieveKeypair { launch }) && launch.config == given
                    && launch.cache == pocketdimension && is_given_or_default(
                    tesseract,
                    launch.tesseract,
                )
            },
            None => r matches Ok(Startup::RetrieveKeypair { launch }) && launch.config.is_default()
                && launch.cache == pocketdimension && is_given_or_default(
                tesseract,
                launch.tesseract,
            ),
        },
{
    let tesseract = given_or_default(tesseract);
    let config = match config {
        None => None,
        Some(Ok(config)) => Some(config),
        Some(Err(error)) => return Err(WarpError::from(error)),
    };
    IpfsIdentity::temporary(config, tesseract, pocketdimension)
}

/// Starts a persistent account. It needs neither a cache nor a key store, but a
/// configuration with a path; none, one that cannot be read, and one without a
/// path are errors.
pub fn multipass_mp_ipfs_persistent<B: Backend>(
    pocketdimension: Option<B::Cache>,
    tesseract: Option<B::Tesseract>,
    config: Option<Result<Config, serde_json::Error>>,
) -> (r: Result<Startup<B>, WarpError>) where B::Tesseract: Default
    ensures
        match config {
            None => r matches Err(error) && error.says("Configuration is invalid"@),
            Some(Err(error)) => r == Err::<Startup<B>, WarpError>(WarpError::SerdeJson(error)),
            Some(Ok(given)) => if given.path is None {
                r matches Err(error) && error.says(
                    "Path is required for identity to be persistent"@,
                )
            } else {
                r matches Ok(Startup::RetrieveKeypair { launch }) && launch.config == given
                    && launch.cache == pocketdimension && is_given_or_default(
                    tesseract,
                    launch.tesseract,
                )
            },
        },
{
    let tesseract = given_or_default(tesseract);
    let config = match config {
        None => return Err(WarpError::any("Configuration is invalid")),
        Some(Ok(config)) => config,
        Some(Err(error)) => return Err(WarpError::from(error)),
    };
    IpfsIdentity::persistent(config, tesseract, pocketdimension)
}

/// A foreign caller that hands everything over starts the same account as any
/// other caller does, and is refused for the same reasons.
pub proof fn foreign_start_is_the_same_start<B: Backend>(
    cache: Option<B::Cache>,
    tesseract: B::Tesseract,
    config: Config,
    foreign_temporary: Result<Startup<B>, WarpError>,
    temporary: Result<Startup<B>, WarpError>,
    foreign_persistent: Result<Startup<B>, WarpError>,
    persistent: Result<Startup<B>, WarpError>,
) where B::Tesseract: Default
    requires
        call_ensures(
            multipass_mp_ipfs_temporary::<B>,
            (cache, Some(tesseract), Some(Ok(config))),
            foreign_temporary,
        ),
        call_ensures(IpfsIdentity::<B>::temporary, (Some(config), tesseract, cache), temporary),
        call_ensures(
            multipass_mp_ipfs_persistent::<B>,
            (cache, Some(tesseract), Some(Ok(config))),
            foreign_persistent,
        ),
        call_ensures(IpfsIdentity::<B>::persistent, (config, tesseract, cache), persistent),
    ensures
        foreign_temporary is Ok <==> temporary is Ok,
        foreign_temporary matches Ok(start) ==> temporary == Ok::<Startup<B>, WarpError>(start),
        foreign_temporary matches Err(error) ==> (error matches WarpError::Any(text) && text@
            == "Path cannot be set"@),
        foreign_persistent is Ok <==> persistent is Ok,
        foreign_persistent matches Ok(start) ==> persistent == Ok::<Startup<B>, WarpError>(start),
        foreign_persistent matches Err(error) ==> (error matches WarpError::Any(text) && text@
            == "Path is required for identity to be persistent"@),
{
}

/// A foreign caller may leave out the cache and the key store, which is then a
/// default one. It may leave out the configuration of a temporary account, but not
/// that of a persistent one.
pub proof fn foreign_caller_may_leave_out<B: Backend>(
    cache: Option<B::Cache>,
    tesseract: Option<B::Tesseract>,
    config: Config,
    bare: Result<Startup<B>, WarpError>,
    temporary: Result<Startup<B>, WarpError>,
    persistent: Result<Startup<B>, WarpError>,
    missing: Result<Startup<B>, WarpError>,
) where B::Tesseract: Default
    requires
        call_ensures(multipass_mp_ipfs_temporary::<B>, (cache, tesseract, None), bare),
        call_ensures(
            multipass_mp_ipfs_temporary::<B>,
            (cache, tesseract, Some(Ok(config))),
            temporary,
        ),
        call_ensures(
            multipass_mp_ipfs_persistent::<B>,
            (cache, tesseract, Some(Ok(config))),
            persistent,
        ),
        call_ensures(multipass_mp_ipfs_persistent::<B>, (cache, tesseract, None), missing),
    ensures
        bare matches Ok(start) && {
            &&& start matches Startup::RetrieveKeypair { launch }
            &&& launch.config.path is None
            &&& launch.cache == cache
            &&& tesseract matches Some(given) ==> launch.tesseract == given
            &&& tesseract is None ==> call_ensures(B::Tesseract::default, (), launch.tesseract)
        },
        temporary is Ok <==> config.path is None,
        persistent is Ok <==> config.path is Some,
        forall|start: Startup<B>|
            #![auto]
            temporary == Ok::<Startup<B>, WarpError>(start) || persistent == Ok::<
                Startup<B>,
                WarpError,
            >(start) ==> {
                &&& start matches Startup::RetrieveKeypair { launch }
                &&& launch.config == config
                &&& launch.cache == cache
                &&& tesseract matches Some(given) ==> launch.tesseract == given
                &&& tesseract is None ==> call_ensures(B::Tesseract::default, (), launch.tesseract)
            },
        missing matches Err(error) && (error matches WarpError::Any(text) && text@
            == "Configuration is invalid"@),
{
}

/// A configuration that cannot be read is the error, for either kind of account.
pub proof fn unreadable_configuration_is_the_error<B: Backend>(
    cache: Option<B::Cache>,
    tesseract: Option<B::Tesseract>,
    cause: serde_json::Error,
    temporary: Result<Startup<B>, WarpError>,
    persistent: Result<Startup<B>, WarpError>,
) where B::Tesseract: Default
    requires
        call_ensures(
            multipass_mp_ipfs_temporary::<B>,
            (cache, tesseract, Some(Err(cause))),
            temporary,
        ),
        call_ensures(
            multipass_mp_ipfs_persistent::<B>,
            (cache, tesseract, Some(Err(cause))),
            persistent,
        ),
    ensures
        temporary == Err::<Startup<B>, WarpError>(WarpError::SerdeJson(cause)),
        persistent == Err::<Startup<B>, WarpError>(WarpError::SerdeJson(cause)),
{
}

} // verus!
