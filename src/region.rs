//! Marketplace regions: each pairs an OAuth authority with an API base URL.

use vstd::prelude::*;
use crate::text::{str_eq, to_upper, upper_of};

verus! {

/// One of the three advertising regions.
#[derive(Debug, Clone, Copy, PartialEq, Eq, Structural)]
pub enum AmazonRegion {
    NA,
    EU,
    FE,
}

/// The region that an upper-case country code belongs to.
pub open spec fn region_of(code: Seq<char>) -> Option<AmazonRegion> {
    if code == "US"@ || code == "CA"@ || code == "MX"@ || code == "BR"@ {
        Some(AmazonRegion::NA)
    } else if code == "UK"@ || code == "GB"@ || code == "DE"@ || code == "FR"@ || code == "ES"@
        || code == "IT"@ || code == "NL"@ || code == "AE"@ || code == "SA"@ || code == "PL"@
        || code == "SE"@ || code == "TR"@ || code == "EG"@ || code == "BE"@ {
        Some(AmazonRegion::EU)
    } else if code == "JP"@ || code == "AU"@ || code == "SG"@ {
        Some(AmazonRegion::FE)
    } else {
        None
    }
}

impl AmazonRegion {
    pub open spec fn auth_url_spec(self) -> Seq<char> {
        match self {
            AmazonRegion::NA => "https://www.amazon.com/ap/oa"@,
            AmazonRegion::EU => "https://eu.account.amazon.com/ap/oa"@,
            AmazonRegion::FE => "https://apac.account.amazon.com/ap/oa"@,
        }
    }

    pub open spec fn api_endpoint_spec(self) -> Seq<char> {
        match self {
            AmazonRegion::NA => "https://advertising-api.amazon.com"@,
            AmazonRegion::EU => "https://advertising-api-eu.amazon.com"@,
            AmazonRegion::FE => "https://advertising-api-fe.amazon.com"@,
        }
    }

    /// The OAuth authority of the region.
    pub fn auth_url(&self) -> (r: &'static str)
        ensures
            r@ == self.auth_url_spec(),
    {
        match self {
            AmazonRegion::NA => "https://www.amazon.com/ap/oa",
            AmazonRegion::EU => "https://eu.account.amazon.com/ap/oa",
            AmazonRegion::FE => "https://apac.account.amazon.com/ap/oa",
        }
    }

    /// The base URL of the region's advertising API.
    pub fn api_endpoint(&self) -> (r: &'static str)
        ensures
            r@ == self.api_endpoint_spec(),
    {
        match self {
            AmazonRegion::NA => "https://advertising-api.amazon.com",
            AmazonRegion::EU => "https://advertising-api-eu.amazon.com",
            AmazonRegion::FE => "https://advertising-api-fe.amazon.com",
        }
    }

    /// Looks up a country code that is already upper case.
    pub fn from_upper_code(code: &str) -> (r: Option<AmazonRegion>)
        ensures
            r == region_of(code@),
    {
        if str_eq(code, "US") || str_eq(code, "CA") || str_eq(code, "MX") || str_eq(code, "BR") {
            Some(AmazonRegion::NA)
        } else if str_eq(code, "UK") || str_eq(code, "GB") || str_eq(code, "DE") || str_eq(
            code,
            "FR",
        ) || str_eq(code, "ES") || str_eq(code, "IT") || str_eq(code, "NL") || str_eq(code, "AE")
            || str_eq(code, "SA") || str_eq(code, "PL") || str_eq(code, "SE") || str_eq(
            code,
            "TR",
        ) || str_eq(code, "EG") || str_eq(code, "BE") {
            Some(AmazonRegion::EU)
        } else if str_eq(code, "JP") || str_eq(code, "AU") || str_eq(code, "SG") {
            Some(AmazonRegion::FE)
        } else {
            None
        }
    }

    /// Resolves a country code in any letter case: the code is upper-cased,
    /// then looked up; an unknown code gives `None`.
    pub fn from_country_code(code: &str) -> (r: Option<AmazonRegion>)
        ensures
            r == region_of(upper_of(code@)),
    {
        let upper = to_upper(code);
        Self::from_upper_code(upper.as_str())
    }
}

/// Each country code of the table resolves to its region; `UK` and `GB`
/// resolve to the same region; a code outside the table, such as `ZZ`,
/// resolves to none.
pub proof fn lemma_region_table()
    ensures
        region_of("US"@) == Some(AmazonRegion::NA),
        region_of("CA"@) == Some(AmazonRegion::NA),
        region_of("MX"@) == Some(AmazonRegion::NA),
        region_of("BR"@) == Some(AmazonRegion::NA),
        region_of("UK"@) == Some(AmazonRegion::EU),
        region_of("GB"@) == Some(AmazonRegion::EU),
        region_of("DE"@) == Some(AmazonRegion::EU),
        region_of("FR"@) == Some(AmazonRegion::EU),
        region_of("ES"@) == Some(AmazonRegion::EU),
        region_of("IT"@) == Some(AmazonRegion::EU),
        region_of("NL"@) == Some(AmazonRegion::EU),
        region_of("AE"@) == Some(AmazonRegion::EU),
        region_of("SA"@) == Some(AmazonRegion::EU),
        region_of("PL"@) == Some(AmazonRegion::EU),
        region_of("SE"@) == Some(AmazonRegion::EU),
        region_of("TR"@) == Some(AmazonRegion::EU),
        region_of("EG"@) == Some(AmazonRegion::EU),
        region_of("BE"@) == Some(AmazonRegion::EU),
        region_of("JP"@) == Some(AmazonRegion::FE),
        region_of("AU"@) == Some(AmazonRegion::FE),
        region_of("SG"@) == Some(AmazonRegion::FE),
        region_of("UK"@) == region_of("GB"@),
        region_of("ZZ"@) is None,
{
    reveal_strlit("US");
    assert("US"@.len() == 2 && "US"@[0] == 'U' && "US"@[1] == 'S');
    reveal_strlit("CA");
    assert("CA"@.len() == 2 && "CA"@[0] == 'C' && "CA"@[1] == 'A');
    reveal_strlit("MX");
    assert("MX"@.len() == 2 && "MX"@[0] == 'M' && "MX"@[1] == 'X');
    reveal_strlit("BR");
    assert("BR"@.len() == 2 && "BR"@[0] == 'B' && "BR"@[1] == 'R');
    reveal_strlit("UK");
    assert("UK"@.len() == 2 && "UK"@[0] == 'U' && "UK"@[1] == 'K');
    reveal_strlit("GB");
    assert("GB"@.len() == 2 && "GB"@[0] == 'G' && "GB"@[1] == 'B');
    reveal_strlit("DE");
    assert("DE"@.len() == 2 && "DE"@[0] == 'D' && "DE"@[1] == 'E');
    reveal_strlit("FR");
    assert("FR"@.len() == 2 && "FR"@[0] == 'F' && "FR"@[1] == 'R');
    reveal_strlit("ES");
    assert("ES"@.len() == 2 && "ES"@[0] == 'E' && "ES"@[1] == 'S');
    reveal_strlit("IT");
    assert("IT"@.len() == 2 && "IT"@[0] == 'I' && "IT"@[1] == 'T');
    reveal_strlit("NL");
    assert("NL"@.len() == 2 && "NL"@[0] == 'N' && "NL"@[1] == 'L');
    reveal_strlit("AE");
    assert("AE"@.len() == 2 && "AE"@[0] == 'A' && "AE"@[1] == 'E');
    reveal_strlit("SA");
    assert("SA"@.len() == 2 && "SA"@[0] == 'S' && "SA"@[1] == 'A');
    reveal_strlit("PL");
    assert("PL"@.len() == 2 && "PL"@[0] == 'P' && "PL"@[1] == 'L');
    reveal_strlit("SE");
    assert("SE"@.len() == 2 && "SE"@[0] == 'S' && "SE"@[1] == 'E');
    reveal_strlit("TR");
    assert("TR"@.len() == 2 && "TR"@[0] == 'T' && "TR"@[1] == 'R');
    reveal_strlit("EG");
    assert("EG"@.len() == 2 && "EG"@[0] == 'E' && "EG"@[1] == 'G');
    reveal_strlit("BE");
    assert("BE"@.len() == 2 && "BE"@[0] == 'B' && "BE"@[1] == 'E');
    reveal_strlit("JP");
    assert("JP"@.len() == 2 && "JP"@[0] == 'J' && "JP"@[1] == 'P');
    reveal_strlit("AU");
    assert("AU"@.len() == 2 && "AU"@[0] == 'A' && "AU"@[1] == 'U');
    reveal_strlit("SG");
    assert("SG"@.len() == 2 && "SG"@[0] == 'S' && "SG"@[1] == 'G');
    reveal_strlit("ZZ");
    assert("ZZ"@.len() == 2 && "ZZ"@[0] == 'Z' && "ZZ"@[1] == 'Z');
}

} // verus!
