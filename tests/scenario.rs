// Drives the verified search with real orbital geometry: SGP4 propagation of
// an ISS element set and the low-precision Sun and Moon series, evaluated in
// floating point on this side, for an observer in Paris.

use std::f64::consts::PI;

use chrono::{DateTime, Datelike, Timelike, Utc};
use isscore::classify::{Kind, SearchConfig};
use isscore::engine::{predict_transits, GeometrySource, Sample};
use isscore::julian::julian_day_number;
use isscore::units::{Body, AU_M, EARTH_RADIUS_M, MICRODEG_PER_DEG};

const EARTH_FLATTENING: f64 = 1.0 / 298.257_223_563;
const EARTH_E2: f64 = EARTH_FLATTENING * (2.0 - EARTH_FLATTENING);

#[derive(Debug, Clone, Copy)]
pub struct Vector3 {
    pub x: f64,
    pub y: f64,
    pub z: f64,
}

impl Vector3 {
    pub fn new(x: f64, y: f64, z: f64) -> Self {
        Self { x, y, z }
    }

    pub fn norm(&self) -> f64 {
        (self.x * self.x + self.y * self.y + self.z * self.z).sqrt()
    }

    pub fn sub(&self, other: &Vector3) -> Vector3 {
        Vector3::new(self.x - other.x, self.y - other.y, self.z - other.z)
    }

    pub fn dot(&self, other: &Vector3) -> f64 {
        self.x * other.x + self.y * other.y + self.z * other.z
    }
}

/// Julian date of an instant, from the library's day number and the time of day.
pub fn datetime_to_jd(dt: DateTime<Utc>) -> f64 {
    let jdn = julian_day_number(dt.year(), dt.month(), dt.day());
    let frac = (dt.hour() as f64
        + dt.minute() as f64 / 60.0
        + dt.second() as f64 / 3600.0
        + dt.timestamp_subsec_micros() as f64 / 3_600_000_000.0)
        / 24.0;
    jdn as f64 - 0.5 + frac
}

/// Greenwich mean sidereal angle in radians, in `[0, 2 pi)`.
pub fn gmst_rad(jd: f64) -> f64 {
    let t = (jd - 2451545.0) / 36525.0;
    let gmst_deg = 280.46061837 + 360.98564736629 * (jd - 2451545.0) + 0.000387933 * t * t
        - t * t * t / 38710000.0;
    let mut g = gmst_deg.to_radians() % (2.0 * PI);
    if g < 0.0 {
        g += 2.0 * PI;
    }
    g
}

/// Rotation about the polar axis by `theta`.
pub fn rot_z(theta: f64, v: &Vector3) -> Vector3 {
    let (s, c) = theta.sin_cos();
    Vector3::new(c * v.x - s * v.y, s * v.x + c * v.y, v.z)
}

/// Earth-fixed position, in km, of a geodetic point on the WGS-84 ellipsoid.
pub fn geodetic_to_ecef(lat_rad: f64, lon_rad: f64, alt_m: f64) -> Vector3 {
    let (sin_lat, cos_lat) = lat_rad.sin_cos();
    let n = (EARTH_RADIUS_M as f64 / 1000.0) / (1.0 - EARTH_E2 * sin_lat * sin_lat).sqrt();
    let alt_km = alt_m / 1000.0;
    Vector3::new(
        (n + alt_km) * cos_lat * lon_rad.cos(),
        (n + alt_km) * cos_lat * lon_rad.sin(),
        (n * (1.0 - EARTH_E2) + alt_km) * sin_lat,
    )
}

/// Angle between two directions in radians, in `[0, pi]`.
pub fn angle_between(a: &Vector3, b: &Vector3) -> f64 {
    (a.dot(b) / (a.norm() * b.norm())).clamp(-1.0, 1.0).acos()
}

/// Low-precision position of the Sun, pseudo-inertial frame, km.
pub fn sun_position_eci(jd: f64) -> Vector3 {
    let d = jd - 2451545.0;
    let l = (280.460 + 0.9856474 * d) % 360.0;
    let g = ((357.528 + 0.9856003 * d) % 360.0).to_radians();
    let lambda = (l + 1.915 * g.sin() + 0.020 * (2.0 * g).sin()).to_radians();
    let r = 1.00014 - 0.01671 * g.cos() - 0.00014 * (2.0 * g).cos();
    let epsilon = (23.439 - 0.0000004 * d).to_radians();
    let au_km = AU_M as f64 / 1000.0;
    Vector3::new(
        r * lambda.cos() * au_km,
        r * lambda.sin() * epsilon.cos() * au_km,
        r * lambda.sin() * epsilon.sin() * au_km,
    )
}

/// Low-precision position of the Moon, pseudo-inertial frame, km.
pub fn moon_position_eci(jd: f64) -> Vector3 {
    let t = (jd - 2451545.0) / 36525.0;
    let l_prime = (218.316 + 481267.881 * t).to_radians();
    let d = (297.850 + 445267.115 * t).to_radians();
    let m = (357.529 + 35999.050 * t).to_radians();
    let m_prime = (134.963 + 477198.868 * t).to_radians();
    let f = (93.272 + 483202.018 * t).to_radians();
    let lambda = l_prime + 6.289_f64.to_radians() * m_prime.sin()
        + 1.274_f64.to_radians() * (2.0 * d - m_prime).sin()
        + 0.658_f64.to_radians() * (2.0 * d).sin()
        + 0.214_f64.to_radians() * (2.0 * m_prime).sin()
        - 0.186_f64.to_radians() * m.sin();
    let beta = 5.128_f64.to_radians() * f.sin() + 0.280_f64.to_radians() * (m_prime + f).sin();
    let r = 385000.0 - 20905.0 * m_prime.cos() - 3699.0 * (2.0 * d - m_prime).cos()
        - 2956.0 * (2.0 * d).cos() - 570.0 * (2.0 * m_prime).cos();
    let eps = (23.439291 - 0.0130042 * t).to_radians();
    let cos_beta = beta.cos();
    Vector3::new(
        r * cos_beta * lambda.cos(),
        r * (cos_beta * lambda.sin() * eps.cos() - beta.sin() * eps.sin()),
        r * (cos_beta * lambda.sin() * eps.sin() + beta.sin() * eps.cos()),
    )
}

/// Earth-fixed relative vector in the observer's south/east/zenith frame.
pub fn ecef_to_sez(v: &Vector3, lat_rad: f64, lon_rad: f64) -> Vector3 {
    let (sin_lat, cos_lat) = lat_rad.sin_cos();
    let (sin_lon, cos_lon) = lon_rad.sin_cos();
    Vector3::new(
        sin_lat * cos_lon * v.x + sin_lat * sin_lon * v.y - cos_lat * v.z,
        -sin_lon * v.x + cos_lon * v.y,
        cos_lat * cos_lon * v.x + cos_lat * sin_lon * v.y + sin_lat * v.z,
    )
}

/// Altitude and azimuth (clockwise from north, in `[0, 360)`) in degrees.
pub fn altaz(sez: &Vector3) -> (f64, f64) {
    let alt = (sez.z / sez.norm()).asin().to_degrees();
    let mut az = sez.y.atan2(-sez.x).to_degrees();
    if az < 0.0 {
        az += 360.0;
    }
    (alt, az)
}

fn to_microdeg(deg: f64) -> Option<i64> {
    if deg.is_finite() {
        Some((deg * MICRODEG_PER_DEG as f64).round() as i64)
    } else {
        None
    }
}

fn to_microdeg_u32(deg: f64) -> Option<u32> {
    to_microdeg(deg).and_then(|v| u32::try_from(v).ok())
}

fn to_microdeg_i32(deg: f64) -> Option<i32> {
    to_microdeg(deg).and_then(|v| i32::try_from(v).ok())
}

/// The sky of one observer for one satellite, propagated with SGP4.
pub struct SgpSky {
    pub constants: sgp4::Constants,
    pub epoch: DateTime<Utc>,
    observer_ecef: Vector3,
    lat_rad: f64,
    lon_rad: f64,
}

struct Topo {
    sat_teme: Vector3,
    body_teme: Vector3,
    sat_sez: Vector3,
    body_sez: Vector3,
}

impl SgpSky {
    pub fn new(elements: &sgp4::Elements, lat_deg: f64, lon_deg: f64, alt_m: f64) -> Result<Self, String> {
        let constants = sgp4::Constants::from_elements(elements)
            .map_err(|e| format!("SGP4 constants error: {}", e))?;
        let lat_rad = lat_deg.to_radians();
        let lon_rad = lon_deg.to_radians();
        Ok(SgpSky {
            constants,
            epoch: DateTime::<Utc>::from_naive_utc_and_offset(elements.datetime, Utc),
            observer_ecef: geodetic_to_ecef(lat_rad, lon_rad, alt_m),
            lat_rad,
            lon_rad,
        })
    }

    fn topo(&self, body: Body, dt: DateTime<Utc>) -> Option<Topo> {
        let mins = dt.signed_duration_since(self.epoch).num_milliseconds() as f64 / 60_000.0;
        let p = self.constants.propagate(sgp4::MinutesSinceEpoch(mins)).ok()?;
        let sat = Vector3::new(p.position[0], p.position[1], p.position[2]);
        let jd = datetime_to_jd(dt);
        let gmst = gmst_rad(jd);
        let observer_teme = rot_z(gmst, &self.observer_ecef);
        let body_eci = match body {
            Body::Sun => sun_position_eci(jd),
            Body::Moon => moon_position_eci(jd),
        };
        let sat_teme = sat.sub(&observer_teme);
        let body_teme = body_eci.sub(&observer_teme);
        let sat_sez = ecef_to_sez(&rot_z(-gmst, &sat_teme), self.lat_rad, self.lon_rad);
        let body_sez = ecef_to_sez(&rot_z(-gmst, &body_teme), self.lat_rad, self.lon_rad);
        Some(Topo { sat_teme, body_teme, sat_sez, body_sez })
    }
}

impl GeometrySource for SgpSky {
    fn sample(&self, body: Body, instant_ms: i64) -> Option<Sample> {
        let dt = DateTime::<Utc>::from_timestamp_millis(instant_ms)?;
        let topo = self.topo(body, dt)?;
        let (sat_alt, sat_az) = altaz(&topo.sat_sez);
        let (body_alt, _) = altaz(&topo.body_sez);
        let separation = angle_between(&topo.sat_teme, &topo.body_teme).to_degrees();
        let radius_km = body.radius_m() as f64 / 1000.0;
        let body_radius = (radius_km / topo.body_teme.norm()).asin().to_degrees();
        let range_km = topo.sat_teme.norm();
        if !range_km.is_finite() {
            return None;
        }
        Some(Sample {
            separation: to_microdeg_u32(separation)?,
            body_radius: to_microdeg_u32(body_radius)?,
            body_alt: to_microdeg_i32(body_alt)?,
            sat_alt: to_microdeg_i32(sat_alt)?,
            sat_az: to_microdeg_i32(sat_az)?,
            sat_range_m: (range_km * 1000.0).round() as u64,
        })
    }

    fn sky_arc(&self, alt_a: i32, az_a: i32, alt_b: i32, az_b: i32) -> u32 {
        let dir = |alt: i32, az: i32| {
            let alt = (alt as f64 / MICRODEG_PER_DEG as f64).to_radians();
            let az = (az as f64 / MICRODEG_PER_DEG as f64).to_radians();
            Vector3::new(alt.cos() * az.cos(), alt.cos() * az.sin(), alt.sin())
        };
        let arc = angle_between(&dir(alt_a, az_a), &dir(alt_b, az_b)).to_degrees();
        to_microdeg_u32(arc).unwrap_or(0)
    }

    fn bearing(&self, alt_rate: i64, az_rate: i64) -> i64 {
        to_microdeg((az_rate as f64).atan2(alt_rate as f64).to_degrees()).unwrap_or(0)
    }
}

const TLE1: &str = "1 25544U 98067A   25278.49802050  .00011384  00000+0  20935-3 0  9990";
const TLE2: &str = "2 25544  51.6327 120.3420 0000884 206.2421 153.8523 15.49697304532279";
const START_EPOCH: i64 = 1759622400;

fn paris() -> SgpSky {
    let elements = sgp4::Elements::from_tle(Some("ISS (ZARYA)".to_string()), TLE1.as_bytes(), TLE2.as_bytes())
        .expect("Failed to parse TLE");
    SgpSky::new(&elements, 48.8566, 2.3522, 35.0).expect("SGP4 constants")
}

#[test]
fn paris_fifteen_days_scenario() {
    let sky = paris();
    let mut config = SearchConfig::default();
    config.max_travel_m = 35_000;
    let start_ms = START_EPOCH * 1000;
    let end_ms = (START_EPOCH + 15 * 86400) * 1000;
    let events = predict_transits(&sky, start_ms, end_ms, &config);
    assert!(!events.is_empty(), "a fortnight over Paris should hold at least one event");
    for w in events.windows(2) {
        assert!(w[0].instant_ms <= w[1].instant_ms);
    }
    for e in &events {
        assert!(e.sat_alt >= 0 && e.sat_alt <= 90_000_000, "Elevation should be 0-90 degrees");
        assert!(e.sat_az >= 0 && e.sat_az < 360_000_000, "Azimuth should be 0-360 degrees");
        assert!(e.sat_range_m > 0, "Distance should be positive");
        assert!(e.kind == Kind::Transit || e.duration_ms == 0);
    }
}

#[test]
fn paris_empty_window() {
    let sky = paris();
    let t = START_EPOCH * 1000;
    assert!(predict_transits(&sky, t, t, &SearchConfig::default()).is_empty());
}

#[test]
fn test_sgp4_propagation() {
    let sky = paris();
    let epoch_ms = sky.epoch.timestamp_millis();
    let s = sky.sample(Body::Sun, epoch_ms).expect("SGP4 propagation should succeed");
    assert!(s.sat_range_m > 0);
    let p = sky.constants.propagate(sgp4::MinutesSinceEpoch(0.0)).unwrap();
    let altitude = Vector3::new(p.position[0], p.position[1], p.position[2]).norm() - EARTH_RADIUS_M as f64 / 1000.0;
    assert!(altitude > 350.0 && altitude < 500.0, "ISS altitude should be ~400-450 km, got {}", altitude);
}

#[test]
fn garbage_elements_are_rejected() {
    assert!(sgp4::Elements::from_tle(None, b"", b"").is_err());
    assert!(sgp4::Elements::from_tle(None, b"not an element set", b"at all").is_err());
}

#[test]
fn test_vector3_operations() {
    let v1 = Vector3::new(3.0, 4.0, 0.0);
    let v2 = Vector3::new(1.0, 0.0, 0.0);
    assert_eq!(v1.norm(), 5.0);
    assert_eq!(v1.dot(&v2), 3.0);
    let v3 = v1.sub(&v2);
    assert_eq!(v3.x, 2.0);
    assert_eq!(v3.y, 4.0);
    assert_eq!(v3.z, 0.0);
}

#[test]
fn test_observer_ecef_position() {
    let lat: f64 = 48.8566;
    let lon: f64 = 2.3522;
    let ecef = geodetic_to_ecef(lat.to_radians(), lon.to_radians(), 35.0);
    let radius = ecef.norm();
    assert!(radius > 6300.0 && radius < 6500.0, "ECEF radius should be near Earth radius");
    assert!(ecef.z > 0.0, "Z component should be positive for northern latitude");
}

#[test]
fn test_gmst() {
    let dt = DateTime::<Utc>::from_timestamp(1759622400, 0).unwrap();
    let g = gmst_rad(datetime_to_jd(dt));
    assert!(g >= 0.0 && g < 2.0 * PI);
}

#[test]
fn test_teme_to_ecef() {
    let teme = Vector3::new(7000.0, 0.0, 0.0);
    let dt = DateTime::<Utc>::from_timestamp(1759622400, 0).unwrap();
    let ecef = rot_z(gmst_rad(datetime_to_jd(dt)), &teme);
    assert!((ecef.norm() - teme.norm()).abs() < 0.1);
}

#[test]
fn test_sun_position() {
    let dt = DateTime::<Utc>::from_timestamp(1759665600, 0).unwrap();
    let distance = sun_position_eci(datetime_to_jd(dt)).norm();
    assert!(distance > 145_000_000.0 && distance < 153_000_000.0, "Sun distance should be ~1 AU (149.6 million km)");
}

#[test]
fn test_moon_position() {
    let dt = DateTime::<Utc>::from_timestamp(1759665600, 0).unwrap();
    let distance = moon_position_eci(datetime_to_jd(dt)).norm();
    assert!(distance > 350_000.0 && distance < 410_000.0, "Moon distance should be ~384,400 km ± range");
}

#[test]
fn test_altaz_conversion() {
    let (alt, _az) = altaz(&Vector3::new(0.0, 0.0, 100.0));
    assert!((alt - 90.0).abs() < 0.01, "Zenith altitude should be 90°");
    let (alt_n, az_n) = altaz(&Vector3::new(-100.0, 0.0, 0.0));
    assert!((alt_n - 0.0).abs() < 0.01, "Horizon altitude should be 0°");
    assert!((az_n - 0.0).abs() < 0.01, "North azimuth should be 0°");
}

#[test]
fn test_ecef_to_sez() {
    let sez = ecef_to_sez(&Vector3::new(1000.0, 0.0, 0.0), 0.0, 0.0);
    assert!((sez.x - 0.0).abs() < 1.0);
}

#[test]
fn test_separation_calculation() {
    let v1 = Vector3::new(1.0, 0.0, 0.0);
    let v2 = Vector3::new(1.0, 0.0, 0.0);
    assert!(angle_between(&v1, &v2).abs() < 0.001, "Identical vectors should have 0 separation");
    let v3 = Vector3::new(0.0, 1.0, 0.0);
    assert!((angle_between(&v1, &v3) - PI / 2.0).abs() < 0.001, "Perpendicular vectors should have π/2 separation");
}
