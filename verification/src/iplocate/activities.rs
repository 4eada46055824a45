//! The computing part of the lookup activities: which address to ask, and
//! what to make of the answer.

use crate::runtime::{ActivityError, ActivityErrorView};
use crate::text::{join, trim, trimmed};
use vstd::prelude::*;
use vstd::string::StringExecFns;

verus! {

/// The service that answers with the caller's public IP address.
pub const IP_SERVICE_URL: &'static str = "https://icanhazip.com";

/// The service that maps an IP address to a location; the address follows.
pub const LOCATION_SERVICE_URL: &'static str = "http://ip-api.com/json/";

/// The result of the IP lookup, from the body that the service answered
/// with or the error of the request.
///
/// The address is the body without the white space around it. A request
/// that failed is a failure that no retry can mend.
pub fn get_ip(response: Result<String, String>) -> (r: Result<String, ActivityError>)
    ensures
        match response {
            Ok(body) => r matches Ok(ip) && ip@ == trimmed(body@),
            Err(reason) => r matches Err(e) && e@ == (ActivityErrorView::NonRetryable {
                message: reason@,
            }),
        },
{
    match response {
        Ok(body) => {
            let ip = String::from_str(trim(body.as_str()));
            Ok(ip)
        },
        Err(reason) => Err(ActivityError::NonRetryable { message: reason }),
    }
}

/// Location information from the IP API
#[derive(Debug)]
pub struct LocationData {
    pub city: String,
    pub region_name: String,
    pub country: String,
}

/// The mathematical value of a [`LocationData`].
pub struct LocationDataView {
    pub city: Seq<char>,
    pub region_name: Seq<char>,
    pub country: Seq<char>,
}

impl View for LocationData {
    type V = LocationDataView;

    open spec fn view(&self) -> LocationDataView {
        LocationDataView {
            city: self.city@,
            region_name: self.region_name@,
            country: self.country@,
        }
    }
}

/// The address to ask for the location of `ip`.
pub open spec fn location_url_spec(ip: Seq<char>) -> Seq<char> {
    LOCATION_SERVICE_URL@ + ip
}

/// The address to ask for the location of `ip`.
pub fn location_url(ip: &str) -> (r: String)
    ensures
        r@ == location_url_spec(ip@),
{
    join(LOCATION_SERVICE_URL, ip)
}

/// A location on one line: city, region and country, separated by a comma
/// and a space.
pub open spec fn location_line(data: LocationDataView) -> Seq<char> {
    data.city + ", "@ + data.region_name + ", "@ + data.country
}

/// The result of the location lookup, from the record that the service
/// answered with or the error of the request.
///
/// A request that failed, or an answer that could not be read, is a failure
/// that no retry can mend.
pub fn get_location_info(response: Result<LocationData, String>) -> (r: Result<
    String,
    ActivityError,
>)
    ensures
        match response {
            Ok(data) => r matches Ok(location) && location@ == location_line(data@),
            Err(reason) => r matches Err(e) && e@ == (ActivityErrorView::NonRetryable {
                message: reason@,
            }),
        },
{
    match response {
        Ok(data) => {
            let mut location = data.city;
            location.append(", ");
            location.append(data.region_name.as_str());
            location.append(", ");
            location.append(data.country.as_str());
            Ok(location)
        },
        Err(reason) => Err(ActivityError::NonRetryable { message: reason }),
    }
}

} // verus!
