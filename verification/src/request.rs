//! The fixed request values of the pipeline: the bulk-archive URL, the
//! per-identifier alert-detail URL, the headers the alerts API requires, and
//! the expected location of the shapefile geometry component inside the
//! extraction directory.

use vstd::prelude::*;
use vstd::string::StringExecFns;

verus! {

/// The fixed URL of the bulk alert-polygon archive.
pub fn archive_url() -> (u: String)
    ensures
        u@ == "https://tgftp.nws.noaa.gov/SL.us008001/DF.sha/DC.cap/DS.WWA/current_all.tar.gz"@,
{
    "https://tgftp.nws.noaa.gov/SL.us008001/DF.sha/DC.cap/DS.WWA/current_all.tar.gz".to_owned()
}

/// The alert-detail URL for one alert identifier.
pub fn alert_url(identifier: &str) -> (u: String)
    ensures
        u@ == "https://api.weather.gov/alerts/"@ + identifier@,
{
    let mut u: String = "https://api.weather.gov/alerts/".to_owned();
    u.append(identifier);
    u
}

/// The contact string sent as the `User-Agent` header of every alert-detail
/// request.
pub fn user_agent() -> (h: String)
    ensures
        h@ == "(rud.is, bob@rud.is)"@,
{
    "(rud.is, bob@rud.is)".to_owned()
}

/// The value sent as the `Accept` header of every alert-detail request.
pub fn accept_value() -> (h: String)
    ensures
        h@ == "application/application/geo+json"@,
{
    "application/application/geo+json".to_owned()
}

/// The path of the shapefile geometry component under the extraction
/// directory.
pub fn shapefile_path(directory: &str) -> (p: String)
    ensures
        p@ == directory@ + "/current_all.shp"@,
{
    let mut p: String = String::new();
    p.append(directory);
    p.append("/current_all.shp");
    proof {
        assert(Seq::<char>::empty() + directory@ =~= directory@);
    }
    p
}

} // verus!
