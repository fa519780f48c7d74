//! A tool that reports the current local time of a country. The country
//! code resolves through a fixed table to a time-zone name; only the
//! conversion of an instant into that zone's local time is delegated to the
//! time-zone database.

use vstd::prelude::*;
use vstd::string::StringExecFns;

use crate::strutil::str_eq;
use crate::tools::{spec_lookup, ToolArgs, ToolContext};

verus! {

/// Computes the current time of a location from its country code.
#[derive(Debug)]
pub struct GetTime {}

/// The supported countries and the time zone each resolves to.
pub open spec fn spec_tz_table() -> Seq<(Seq<char>, Seq<char>)> {
    seq![
        ("AE"@, "Asia/Dubai"@),
        ("AR"@, "America/Argentina/Buenos_Aires"@),
        ("AT"@, "Europe/Vienna"@),
        ("AU"@, "Australia/Sydney"@),
        ("BE"@, "Europe/Brussels"@),
        ("BG"@, "Europe/Sofia"@),
        ("BO"@, "America/La_Paz"@),
        ("BR"@, "America/Sao_Paulo"@),
        ("CA"@, "America/Toronto"@),
        ("CH"@, "Europe/Zurich"@),
        ("CL"@, "America/Santiago"@),
        ("CN"@, "Asia/Shanghai"@),
        ("CO"@, "America/Bogota"@),
        ("CZ"@, "Europe/Prague"@),
        ("DE"@, "Europe/Berlin"@),
        ("DK"@, "Europe/Copenhagen"@),
        ("EC"@, "America/Guayaquil"@),
        ("EG"@, "Africa/Cairo"@),
        ("ES"@, "Europe/Madrid"@),
        ("FI"@, "Europe/Helsinki"@),
        ("FR"@, "Europe/Paris"@),
        ("GB"@, "Europe/London"@),
        ("GR"@, "Europe/Athens"@),
        ("HK"@, "Asia/Hong_Kong"@),
        ("HU"@, "Europe/Budapest"@),
        ("ID"@, "Asia/Jakarta"@),
        ("IE"@, "Europe/Dublin"@),
        ("IL"@, "Asia/Jerusalem"@),
        ("IN"@, "Asia/Kolkata"@),
        ("IR"@, "Asia/Tehran"@),
        ("IT"@, "Europe/Rome"@),
        ("JP"@, "Asia/Tokyo"@),
        ("KR"@, "Asia/Seoul"@),
        ("MX"@, "America/Mexico_City"@),
        ("MY"@, "Asia/Kuala_Lumpur"@),
        ("NG"@, "Africa/Lagos"@),
        ("NL"@, "Europe/Amsterdam"@),
        ("NO"@, "Europe/Oslo"@),
        ("NZ"@, "Pacific/Auckland"@),
        ("PE"@, "America/Lima"@),
        ("PH"@, "Asia/Manila"@),
        ("PK"@, "Asia/Karachi"@),
        ("PL"@, "Europe/Warsaw"@),
        ("PT"@, "Europe/Lisbon"@),
        ("PY"@, "America/Asuncion"@),
        ("QA"@, "Asia/Qatar"@),
        ("RO"@, "Europe/Bucharest"@),
        ("RU"@, "Europe/Moscow"@),
        ("SA"@, "Asia/Riyadh"@),
        ("SE"@, "Europe/Stockholm"@),
        ("SG"@, "Asia/Singapore"@),
        ("TH"@, "Asia/Bangkok"@),
        ("TR"@, "Europe/Istanbul"@),
        ("TW"@, "Asia/Taipei"@),
        ("UA"@, "Europe/Kyiv"@),
        ("US"@, "America/New_York"@),
        ("UY"@, "America/Montevideo"@),
        ("VE"@, "America/Caracas"@),
        ("VN"@, "Asia/Ho_Chi_Minh"@),
        ("ZA"@, "Africa/Johannesburg"@),
    ]
}

/// The time zone a country code resolves to, if supported.
pub open spec fn spec_country_tz(code: Seq<char>) -> Option<Seq<char>> {
    spec_lookup(spec_tz_table(), code)
}

/// What the time-zone database renders for the given zone name and instant:
/// the local date-time line, or nothing for an unknown zone or an
/// out-of-range instant. The result depends on the arguments alone.
pub uninterp spec fn local_time_text(tz: Seq<char>, unix_secs: i64) -> Option<Seq<char>>;

/// Relies on chrono and chrono-tz: `Tz::from_str` resolves an IANA zone
/// name, `DateTime::from_timestamp` builds the UTC instant, and the zone
/// conversion's display renders the local date-time.
#[verifier::external_body]
fn local_time_in_zone(tz_name: &str, unix_secs: i64) -> (r: Option<String>)
    ensures
        r matches Some(t) ==> (local_time_text(tz_name@, unix_secs) matches Some(v) && t@ == v),
        r is None ==> local_time_text(tz_name@, unix_secs) is None,
{
    let tz: chrono_tz::Tz = tz_name.parse().ok()?;
    let dt = chrono::DateTime::from_timestamp(unix_secs, 0)?;
    Some(dt.with_timezone(&tz).to_string())
}

/// What one clock invocation reports for the given fields and instant:
/// the rendered local-time line of the resolved country, or the message
/// naming what was missing or unsupported.
pub open spec fn spec_clock_run(args: Seq<(Seq<char>, Seq<char>)>, now_unix: i64) -> Result<
    Seq<char>,
    Seq<char>,
> {
    match spec_lookup(args, "country_code"@) {
        None => Err("Missing or invalid 'country_code' parameter"@),
        Some(code) => match spec_country_tz(code) {
            None => Err("Unsupported country code: "@ + code),
            Some(tz) => match local_time_text(tz, now_unix) {
                Some(t) => Ok("The current time in "@ + code + " ("@ + tz + ") is: "@ + t),
                None => Err("Failed to compute the local time"@),
            },
        },
    }
}

/// The supported countries, as an executable table.
pub fn tz_table() -> (r: Vec<(String, String)>)
    ensures
        r.deep_view() == spec_tz_table(),
{
    let mut r: Vec<(String, String)> = Vec::new();
    r.push((String::from_str("AE"), String::from_str("Asia/Dubai")));
    r.push((String::from_str("AR"), String::from_str("America/Argentina/Buenos_Aires")));
    r.push((String::from_str("AT"), String::from_str("Europe/Vienna")));
    r.push((String::from_str("AU"), String::from_str("Australia/Sydney")));
    r.push((String::from_str("BE"), String::from_str("Europe/Brussels")));
    r.push((String::from_str("BG"), String::from_str("Europe/Sofia")));
    r.push((String::from_str("BO"), String::from_str("America/La_Paz")));
    r.push((String::from_str("BR"), String::from_str("America/Sao_Paulo")));
    r.push((String::from_str("CA"), String::from_str("America/Toronto")));
    r.push((String::from_str("CH"), String::from_str("Europe/Zurich")));
    r.push((String::from_str("CL"), String::from_str("America/Santiago")));
    r.push((String::from_str("CN"), String::from_str("Asia/Shanghai")));
    r.push((String::from_str("CO"), String::from_str("America/Bogota")));
    r.push((String::from_str("CZ"), String::from_str("Europe/Prague")));
    r.push((String::from_str("DE"), String::from_str("Europe/Berlin")));
    r.push((String::from_str("DK"), String::from_str("Europe/Copenhagen")));
    r.push((String::from_str("EC"), String::from_str("America/Guayaquil")));
    r.push((String::from_str("EG"), String::from_str("Africa/Cairo")));
    r.push((String::from_str("ES"), String::from_str("Europe/Madrid")));
    r.push((String::from_str("FI"), String::from_str("Europe/Helsinki")));
    r.push((String::from_str("FR"), String::from_str("Europe/Paris")));
    r.push((String::from_str("GB"), String::from_str("Europe/London")));
    r.push((String::from_str("GR"), String::from_str("Europe/Athens")));
    r.push((String::from_str("HK"), String::from_str("Asia/Hong_Kong")));
    r.push((String::from_str("HU"), String::from_str("Europe/Budapest")));
    r.push((String::from_str("ID"), String::from_str("Asia/Jakarta")));
    r.push((String::from_str("IE"), String::from_str("Europe/Dublin")));
    r.push((String::from_str("IL"), String::from_str("Asia/Jerusalem")));
    r.push((String::from_str("IN"), String::from_str("Asia/Kolkata")));
    r.push((String::from_str("IR"), String::from_str("Asia/Tehran")));
    r.push((String::from_str("IT"), String::from_str("Europe/Rome")));
    r.push((String::from_str("JP"), String::from_str("Asia/Tokyo")));
    r.push((String::from_str("KR"), String::from_str("Asia/Seoul")));
    r.push((String::from_str("MX"), String::from_str("America/Mexico_City")));
    r.push((String::from_str("MY"), String::from_str("Asia/Kuala_Lumpur")));
    r.push((String::from_str("NG"), String::from_str("Africa/Lagos")));
    r.push((String::from_str("NL"), String::from_str("Europe/Amsterdam")));
    r.push((String::from_str("NO"), String::from_str("Europe/Oslo")));
    r.push((String::from_str("NZ"), String::from_str("Pacific/Auckland")));
    r.push((String::from_str("PE"), String::from_str("America/Lima")));
    r.push((String::from_str("PH"), String::from_str("Asia/Manila")));
    r.push((String::from_str("PK"), String::from_str("Asia/Karachi")));
    r.push((String::from_str("PL"), String::from_str("Europe/Warsaw")));
    r.push((String::from_str("PT"), String::from_str("Europe/Lisbon")));
    r.push((String::from_str("PY"), String::from_str("America/Asuncion")));
    r.push((String::from_str("QA"), String::from_str("Asia/Qatar")));
    r.push((String::from_str("RO"), String::from_str("Europe/Bucharest")));
    r.push((String::from_str("RU"), String::from_str("Europe/Moscow")));
    r.push((String::from_str("SA"), String::from_str("Asia/Riyadh")));
    r.push((String::from_str("SE"), String::from_str("Europe/Stockholm")));
    r.push((String::from_str("SG"), String::from_str("Asia/Singapore")));
    r.push((String::from_str("TH"), String::from_str("Asia/Bangkok")));
    r.push((String::from_str("TR"), String::from_str("Europe/Istanbul")));
    r.push((String::from_str("TW"), String::from_str("Asia/Taipei")));
    r.push((String::from_str("UA"), String::from_str("Europe/Kyiv")));
    r.push((String::from_str("US"), String::from_str("America/New_York")));
    r.push((String::from_str("UY"), String::from_str("America/Montevideo")));
    r.push((String::from_str("VE"), String::from_str("America/Caracas")));
    r.push((String::from_str("VN"), String::from_str("Asia/Ho_Chi_Minh")));
    r.push((String::from_str("ZA"), String::from_str("Africa/Johannesburg")));
    proof {
        assert(r.deep_view() =~= spec_tz_table());
    }
    r
}

impl GetTime {
    pub fn new() -> (r: Self) {
        Self {  }
    }

    /// The name the registry resolves this tool under.
    pub fn name(&self) -> (r: String)
        ensures
            r@ == "get-location-time"@,
    {
        String::from_str("get-location-time")
    }

    /// The description advertised to the model.
    pub fn description(&self) -> (r: String)
        ensures
            r@ == "Get the current time of the location based on the country code"@,
    {
        String::from_str("Get the current time of the location based on the country code")
    }

    /// The JSON schema of the accepted arguments.
    pub fn json_schema(&self) -> (r: String)
        ensures
            r@ == "{\"type\":\"object\",\"properties\":{\"country_code\":{\"type\":\"string\",\"description\":\"ISO 3166-1 alpha-2 country code (e.g., 'US', 'JP', 'FR')\"}},\"required\":[\"country_code\"]}"@,
    {
        String::from_str(
            "{\"type\":\"object\",\"properties\":{\"country_code\":{\"type\":\"string\",\"description\":\"ISO 3166-1 alpha-2 country code (e.g., 'US', 'JP', 'FR')\"}},\"required\":[\"country_code\"]}",
        )
    }

    /// The current time of a country, rendered for the model: an
    /// unsupported code is rejected by name, and for a supported one the
    /// line names the code, the zone, and the local date-time at `now_unix`.
    pub fn get_time_by_country(&self, country_code: &str, now_unix: i64) -> (r: Result<
        String,
        String,
    >)
        ensures
            spec_country_tz(country_code@) is None ==> (r matches Err(e) && e@
                == "Unsupported country code: "@ + country_code@),
            spec_country_tz(country_code@) matches Some(tz) ==> match local_time_text(
                tz,
                now_unix,
            ) {
                Some(t) => (r matches Ok(o) && o@ == "The current time in "@ + country_code@ + " ("@
                    + tz + ") is: "@ + t),
                None => (r matches Err(e) && e@ == "Failed to compute the local time"@),
            },
    {
        let table = tz_table();
        let ghost full = table.deep_view();
        let n = table.len();
        proof {
            assert(full.skip(0) =~= full);
        }
        for i in 0..n
            invariant
                n == table@.len(),
                full == table.deep_view(),
                full == spec_tz_table(),
                spec_lookup(full, country_code@) == spec_lookup(full.skip(i as int), country_code@),
        {
            proof {
                assert(full.skip(i as int).first() == full[i as int]);
                assert(full.skip(i as int).drop_first() =~= full.skip(i + 1));
            }
            if str_eq(table[i].0.as_str(), country_code) {
                let tz = &table[i].1;
                match local_time_in_zone(tz.as_str(), now_unix) {
                    Some(t) => {
                        let mut out = String::from_str("The current time in ");
                        out.append(country_code);
                        out.append(" (");
                        out.append(tz.as_str());
                        out.append(") is: ");
                        out.append(t.as_str());
                        return Ok(out);
                    },
                    None => {
                        return Err(String::from_str("Failed to compute the local time"));
                    },
                }
            }
        }
        proof {
            assert(full.skip(n as int) =~= Seq::<(Seq<char>, Seq<char>)>::empty());
        }
        let mut e = String::from_str("Unsupported country code: ");
        e.append(country_code);
        Err(e)
    }

    /// Runs the tool on parsed arguments: resolves `country_code` and
    /// reports that country's current time; the result is exactly
    /// [`spec_clock_run`] of the fields and the instant.
    pub fn run(&self, args: &ToolArgs, ctx: &ToolContext) -> (r: Result<String, String>)
        ensures
            r matches Ok(o) ==> (spec_clock_run(args@, ctx.now_unix) matches Ok(v) && o@ == v),
            r matches Err(e) ==> (spec_clock_run(args@, ctx.now_unix) matches Err(v) && e@ == v),
    {
        match args.get("country_code") {
            Some(code) => self.get_time_by_country(code.as_str(), ctx.now_unix),
            None => Err(String::from_str("Missing or invalid 'country_code' parameter")),
        }
    }
}

} // verus!
