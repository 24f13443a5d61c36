use crate::error::ParseError;
use crate::models::object_id::ObjectId;
use crate::util::parameters::FromText;
use crate::util::text::text_eq;
use vstd::prelude::*;
use vstd::string::*;

verus! {

/// The category of a vehicle.
#[allow(non_camel_case_types)]
#[derive(Clone, Copy, Debug, PartialEq, Eq, Hash, Structural)]
pub enum VehicleType {
    CAR,
    MOTORBIKE,
}

/// How a car changes gear.
#[allow(non_camel_case_types)]
#[derive(Clone, Copy, Debug, PartialEq, Eq, Hash, Structural)]
pub enum Gearbox {
    MANUAL,
    AUTOMATIC,
}

/// What a car runs on.
#[allow(non_camel_case_types)]
#[derive(Clone, Copy, Debug, PartialEq, Eq, Hash, Structural)]
pub enum FuelType {
    PETROL,
    DIESEL,
    ELECTRIC,
}

/// The maker of a vehicle: two makers of cars, six of motorbikes.
#[allow(non_camel_case_types)]
#[derive(Clone, Copy, Debug, PartialEq, Eq, Hash, Structural)]
pub enum Brand {
    TESLA,
    MERCEDES,
    HONDA,
    YAMAHA,
    KAWASAKI,
    DUCATI,
    BMW,
    HARLEY_DAVIDSON,
}

/// The models of the two makers of cars.
#[allow(non_camel_case_types)]
#[derive(Clone, Copy, Debug, PartialEq, Eq, Hash, Structural)]
pub enum CarModel {
    MODEL_S,
    MODEL_3,
    MODEL_X,
    MODEL_Y,
    CYBERTRUCK,
    ROADSTER,
    A_CLASS,
    C_CLASS,
    E_CLASS,
    S_CLASS,
    G_CLASS,
    GLC,
    GLE,
    AMG_GT,
}

/// The kinds of motorbike.
#[allow(non_camel_case_types)]
#[derive(Clone, Copy, Debug, PartialEq, Eq, Hash, Structural)]
pub enum MotorbikeModel {
    SPORTBIKE,
    CRUISER,
}

/// The variant of `VehicleType` that a text names, if any.
pub open spec fn vehicle_type_named(s: Seq<char>) -> Option<VehicleType> {
    if s == "CAR"@ {
        Some(VehicleType::CAR)
    } else if s == "MOTORBIKE"@ {
        Some(VehicleType::MOTORBIKE)
    } else {
        None
    }
}

impl VehicleType {
    /// The canonical text of the variant.
    pub open spec fn name(self) -> Seq<char> {
        match self {
            VehicleType::CAR => "CAR"@,
            VehicleType::MOTORBIKE => "MOTORBIKE"@,
        }
    }

    pub fn to_string(&self) -> (s: String)
        ensures
            s@ == self.name(),
    {
        match self {
            VehicleType::CAR => "CAR".to_owned(),
            VehicleType::MOTORBIKE => "MOTORBIKE".to_owned(),
        }
    }

    /// Reads a variant from its canonical text.
    pub fn parse(s: &str) -> (r: Result<VehicleType, ParseError>)
        ensures
            r.ok() == vehicle_type_named(s@),
    {
        if text_eq(s, "CAR") {
            Ok(VehicleType::CAR)
        } else if text_eq(s, "MOTORBIKE") {
            Ok(VehicleType::MOTORBIKE)
        } else {
            Err(ParseError::VariantNotFound)
        }
    }
}

impl std::str::FromStr for VehicleType {
    type Err = ParseError;

    fn from_str(s: &str) -> (r: Result<VehicleType, ParseError>)
        ensures
            r.ok() == vehicle_type_named(s@),
    {
        VehicleType::parse(s)
    }
}

/// The variant of `Gearbox` that a text names, if any.
pub open spec fn gearbox_named(s: Seq<char>) -> Option<Gearbox> {
    if s == "MANUAL"@ {
        Some(Gearbox::MANUAL)
    } else if s == "AUTOMATIC"@ {
        Some(Gearbox::AUTOMATIC)
    } else {
        None
    }
}

impl Gearbox {
    /// The canonical text of the variant.
    pub open spec fn name(self) -> Seq<char> {
        match self {
            Gearbox::MANUAL => "MANUAL"@,
            Gearbox::AUTOMATIC => "AUTOMATIC"@,
        }
    }

    pub fn to_string(&self) -> (s: String)
        ensures
            s@ == self.name(),
    {
        match self {
            Gearbox::MANUAL => "MANUAL".to_owned(),
            Gearbox::AUTOMATIC => "AUTOMATIC".to_owned(),
        }
    }

    /// Reads a variant from its canonical text.
    pub fn parse(s: &str) -> (r: Result<Gearbox, ParseError>)
        ensures
            r.ok() == gearbox_named(s@),
    {
        if text_eq(s, "MANUAL") {
            Ok(Gearbox::MANUAL)
        } else if text_eq(s, "AUTOMATIC") {
            Ok(Gearbox::AUTOMATIC)
        } else {
            Err(ParseError::VariantNotFound)
        }
    }
}

impl std::str::FromStr for Gearbox {
    type Err = ParseError;

    fn from_str(s: &str) -> (r: Result<Gearbox, ParseError>)
        ensures
            r.ok() == gearbox_named(s@),
    {
        Gearbox::parse(s)
    }
}

/// The variant of `FuelType` that a text names, if any.
pub open spec fn fuel_type_named(s: Seq<char>) -> Option<FuelType> {
    if s == "PETROL"@ {
        Some(FuelType::PETROL)
    } else if s == "DIESEL"@ {
        Some(FuelType::DIESEL)
    } else if s == "ELECTRIC"@ {
        Some(FuelType::ELECTRIC)
    } else {
        None
    }
}

impl FuelType {
    /// The canonical text of the variant.
    pub open spec fn name(self) -> Seq<char> {
        match self {
            FuelType::PETROL => "PETROL"@,
            FuelType::DIESEL => "DIESEL"@,
            FuelType::ELECTRIC => "ELECTRIC"@,
        }
    }

    pub fn to_string(&self) -> (s: String)
        ensures
            s@ == self.name(),
    {
        match self {
            FuelType::PETROL => "PETROL".to_owned(),
            FuelType::DIESEL => "DIESEL".to_owned(),
            FuelType::ELECTRIC => "ELECTRIC".to_owned(),
        }
    }

    /// Reads a variant from its canonical text.
    pub fn parse(s: &str) -> (r: Result<FuelType, ParseError>)
        ensures
            r.ok() == fuel_type_named(s@),
    {
        if text_eq(s, "PETROL") {
            Ok(FuelType::PETROL)
        } else if text_eq(s, "DIESEL") {
            Ok(FuelType::DIESEL)
        } else if text_eq(s, "ELECTRIC") {
            Ok(FuelType::ELECTRIC)
        } else {
            Err(ParseError::VariantNotFound)
        }
    }
}

impl std::str::FromStr for FuelType {
    type Err = ParseError;

    fn from_str(s: &str) -> (r: Result<FuelType, ParseError>)
        ensures
            r.ok() == fuel_type_named(s@),
    {
        FuelType::parse(s)
    }
}

/// The variant of `Brand` that a text names, if any.
pub open spec fn brand_named(s: Seq<char>) -> Option<Brand> {
    if s == "TESLA"@ {
        Some(Brand::TESLA)
    } else if s == "MERCEDES"@ {
        Some(Brand::MERCEDES)
    } else if s == "HONDA"@ {
        Some(Brand::HONDA)
    } else if s == "YAMAHA"@ {
        Some(Brand::YAMAHA)
    } else if s == "KAWASAKI"@ {
        Some(Brand::KAWASAKI)
    } else if s == "DUCATI"@ {
        Some(Brand::DUCATI)
    } else if s == "BMW"@ {
        Some(Brand::BMW)
    } else if s == "HARLEY_DAVIDSON"@ {
        Some(Brand::HARLEY_DAVIDSON)
    } else {
        None
    }
}

impl Brand {
    /// The canonical text of the variant.
    pub open spec fn name(self) -> Seq<char> {
        match self {
            Brand::TESLA => "TESLA"@,
            Brand::MERCEDES => "MERCEDES"@,
            Brand::HONDA => "HONDA"@,
            Brand::YAMAHA => "YAMAHA"@,
            Brand::KAWASAKI => "KAWASAKI"@,
            Brand::DUCATI => "DUCATI"@,
            Brand::BMW => "BMW"@,
            Brand::HARLEY_DAVIDSON => "HARLEY_DAVIDSON"@,
        }
    }

    pub fn to_string(&self) -> (s: String)
        ensures
            s@ == self.name(),
    {
        match self {
            Brand::TESLA => "TESLA".to_owned(),
            Brand::MERCEDES => "MERCEDES".to_owned(),
            Brand::HONDA => "HONDA".to_owned(),
            Brand::YAMAHA => "YAMAHA".to_owned(),
            Brand::KAWASAKI => "KAWASAKI".to_owned(),
            Brand::DUCATI => "DUCATI".to_owned(),
            Brand::BMW => "BMW".to_owned(),
            Brand::HARLEY_DAVIDSON => "HARLEY_DAVIDSON".to_owned(),
        }
    }

    /// Reads a variant from its canonical text.
    pub fn parse(s: &str) -> (r: Result<Brand, ParseError>)
        ensures
            r.ok() == brand_named(s@),
    {
        if text_eq(s, "TESLA") {
            Ok(Brand::TESLA)
        } else if text_eq(s, "MERCEDES") {
            Ok(Brand::MERCEDES)
        } else if text_eq(s, "HONDA") {
            Ok(Brand::HONDA)
        } else if text_eq(s, "YAMAHA") {
            Ok(Brand::YAMAHA)
        } else if text_eq(s, "KAWASAKI") {
            Ok(Brand::KAWASAKI)
        } else if text_eq(s, "DUCATI") {
            Ok(Brand::DUCATI)
        } else if text_eq(s, "BMW") {
            Ok(Brand::BMW)
        } else if text_eq(s, "HARLEY_DAVIDSON") {
            Ok(Brand::HARLEY_DAVIDSON)
        } else {
            Err(ParseError::VariantNotFound)
        }
    }
}

impl std::str::FromStr for Brand {
    type Err = ParseError;

    fn from_str(s: &str) -> (r: Result<Brand, ParseError>)
        ensures
            r.ok() == brand_named(s@),
    {
        Brand::parse(s)
    }
}

/// The variant of `CarModel` that a text names, if any.
pub open spec fn car_model_named(s: Seq<char>) -> Option<CarModel> {
    if s == "MODEL_S"@ {
        Some(CarModel::MODEL_S)
    } else if s == "MODEL_3"@ {
        Some(CarModel::MODEL_3)
    } else if s == "MODEL_X"@ {
        Some(CarModel::MODEL_X)
    } else if s == "MODEL_Y"@ {
        Some(CarModel::MODEL_Y)
    } else if s == "CYBERTRUCK"@ {
        Some(CarModel::CYBERTRUCK)
    } else if s == "ROADSTER"@ {
        Some(CarModel::ROADSTER)
    } else if s == "A_CLASS"@ {
        Some(CarModel::A_CLASS)
    } else if s == "C_CLASS"@ {
        Some(CarModel::C_CLASS)
    } else if s == "E_CLASS"@ {
        Some(CarModel::E_CLASS)
    } else if s == "S_CLASS"@ {
        Some(CarModel::S_CLASS)
    } else if s == "G_CLASS"@ {
        Some(CarModel::G_CLASS)
    } else if s == "GLC"@ {
        Some(CarModel::GLC)
    } else if s == "GLE"@ {
        Some(CarModel::GLE)
    } else if s == "AMG_GT"@ {
        Some(CarModel::AMG_GT)
    } else {
        None
    }
}

impl CarModel {
    /// The canonical text of the variant.
    pub open spec fn name(self) -> Seq<char> {
        match self {
            CarModel::MODEL_S => "MODEL_S"@,
            CarModel::MODEL_3 => "MODEL_3"@,
            CarModel::MODEL_X => "MODEL_X"@,
            CarModel::MODEL_Y => "MODEL_Y"@,
            CarModel::CYBERTRUCK => "CYBERTRUCK"@,
            CarModel::ROADSTER => "ROADSTER"@,
            CarModel::A_CLASS => "A_CLASS"@,
            CarModel::C_CLASS => "C_CLASS"@,
            CarModel::E_CLASS => "E_CLASS"@,
            CarModel::S_CLASS => "S_CLASS"@,
            CarModel::G_CLASS => "G_CLASS"@,
            CarModel::GLC => "GLC"@,
            CarModel::GLE => "GLE"@,
            CarModel::AMG_GT => "AMG_GT"@,
        }
    }

    pub fn to_string(&self) -> (s: String)
        ensures
            s@ == self.name(),
    {
        match self {
            CarModel::MODEL_S => "MODEL_S".to_owned(),
            CarModel::MODEL_3 => "MODEL_3".to_owned(),
            CarModel::MODEL_X => "MODEL_X".to_owned(),
            CarModel::MODEL_Y => "MODEL_Y".to_owned(),
            CarModel::CYBERTRUCK => "CYBERTRUCK".to_owned(),
            CarModel::ROADSTER => "ROADSTER".to_owned(),
            CarModel::A_CLASS => "A_CLASS".to_owned(),
            CarModel::C_CLASS => "C_CLASS".to_owned(),
            CarModel::E_CLASS => "E_CLASS".to_owned(),
            CarModel::S_CLASS => "S_CLASS".to_owned(),
            CarModel::G_CLASS => "G_CLASS".to_owned(),
            CarModel::GLC => "GLC".to_owned(),
            CarModel::GLE => "GLE".to_owned(),
            CarModel::AMG_GT => "AMG_GT".to_owned(),
        }
    }

    /// Reads a variant from its canonical text.
    pub fn parse(s: &str) -> (r: Result<CarModel, ParseError>)
        ensures
            r.ok() == car_model_named(s@),
    {
        if text_eq(s, "MODEL_S") {
            Ok(CarModel::MODEL_S)
        } else if text_eq(s, "MODEL_3") {
            Ok(CarModel::MODEL_3)
        } else if text_eq(s, "MODEL_X") {
            Ok(CarModel::MODEL_X)
        } else if text_eq(s, "MODEL_Y") {
            Ok(CarModel::MODEL_Y)
        } else if text_eq(s, "CYBERTRUCK") {
            Ok(CarModel::CYBERTRUCK)
        } else if text_eq(s, "ROADSTER") {
            Ok(CarModel::ROADSTER)
        } else if text_eq(s, "A_CLASS") {
            Ok(CarModel::A_CLASS)
        } else if text_eq(s, "C_CLASS") {
            Ok(CarModel::C_CLASS)
        } else if text_eq(s, "E_CLASS") {
            Ok(CarModel::E_CLASS)
        } else if text_eq(s, "S_CLASS") {
            Ok(CarModel::S_CLASS)
        } else if text_eq(s, "G_CLASS") {
            Ok(CarModel::G_CLASS)
        } else if text_eq(s, "GLC") {
            Ok(CarModel::GLC)
        } else if text_eq(s, "GLE") {
            Ok(CarModel::GLE)
        } else if text_eq(s, "AMG_GT") {
            Ok(CarModel::AMG_GT)
        } else {
            Err(ParseError::VariantNotFound)
        }
    }
}

impl std::str::FromStr for CarModel {
    type Err = ParseError;

    fn from_str(s: &str) -> (r: Result<CarModel, ParseError>)
        ensures
            r.ok() == car_model_named(s@),
    {
        CarModel::parse(s)
    }
}

/// The variant of `MotorbikeModel` that a text names, if any.
pub open spec fn motorbike_model_named(s: Seq<char>) -> Option<MotorbikeModel> {
    if s == "SPORTBIKE"@ {
        Some(MotorbikeModel::SPORTBIKE)
    } else if s == "CRUISER"@ {
        Some(MotorbikeModel::CRUISER)
    } else {
        None
    }
}

impl MotorbikeModel {
    /// The canonical text of the variant.
    pub open spec fn name(self) -> Seq<char> {
        match self {
            MotorbikeModel::SPORTBIKE => "SPORTBIKE"@,
            MotorbikeModel::CRUISER => "CRUISER"@,
        }
    }

    pub fn to_string(&self) -> (s: String)
        ensures
            s@ == self.name(),
    {
        match self {
            MotorbikeModel::SPORTBIKE => "SPORTBIKE".to_owned(),
            MotorbikeModel::CRUISER => "CRUISER".to_owned(),
        }
    }

    /// Reads a variant from its canonical text.
    pub fn parse(s: &str) -> (r: Result<MotorbikeModel, ParseError>)
        ensures
            r.ok() == motorbike_model_named(s@),
    {
        if text_eq(s, "SPORTBIKE") {
            Ok(MotorbikeModel::SPORTBIKE)
        } else if text_eq(s, "CRUISER") {
            Ok(MotorbikeModel::CRUISER)
        } else {
            Err(ParseError::VariantNotFound)
        }
    }
}

impl std::str::FromStr for MotorbikeModel {
    type Err = ParseError;

    fn from_str(s: &str) -> (r: Result<MotorbikeModel, ParseError>)
        ensures
            r.ok() == motorbike_model_named(s@),
    {
        MotorbikeModel::parse(s)
    }
}

impl FromText for VehicleType {
    open spec fn readable(text: Seq<char>) -> bool {
        vehicle_type_named(text) is Some
    }

    open spec fn reads_as(text: Seq<char>, item: VehicleType) -> bool {
        vehicle_type_named(text) == Some(item)
    }

    open spec fn complaint(text: Seq<char>) -> Seq<char> {
        ParseError::VariantNotFound.words()
    }

    fn from_text(text: &str) -> (r: Result<VehicleType, String>) {
        match VehicleType::parse(text) {
            Ok(item) => Ok(item),
            Err(e) => Err(e.to_string()),
        }
    }
}

impl FromText for Gearbox {
    open spec fn readable(text: Seq<char>) -> bool {
        gearbox_named(text) is Some
    }

    open spec fn reads_as(text: Seq<char>, item: Gearbox) -> bool {
        gearbox_named(text) == Some(item)
    }

    open spec fn complaint(text: Seq<char>) -> Seq<char> {
        ParseError::VariantNotFound.words()
    }

    fn from_text(text: &str) -> (r: Result<Gearbox, String>) {
        match Gearbox::parse(text) {
            Ok(item) => Ok(item),
            Err(e) => Err(e.to_string()),
        }
    }
}

impl FromText for FuelType {
    open spec fn readable(text: Seq<char>) -> bool {
        fuel_type_named(text) is Some
    }

    open spec fn reads_as(text: Seq<char>, item: FuelType) -> bool {
        fuel_type_named(text) == Some(item)
    }

    open spec fn complaint(text: Seq<char>) -> Seq<char> {
        ParseError::VariantNotFound.words()
    }

    fn from_text(text: &str) -> (r: Result<FuelType, String>) {
        match FuelType::parse(text) {
            Ok(item) => Ok(item),
            Err(e) => Err(e.to_string()),
        }
    }
}

impl FromText for Brand {
    open spec fn readable(text: Seq<char>) -> bool {
        brand_named(text) is Some
    }

    open spec fn reads_as(text: Seq<char>, item: Brand) -> bool {
        brand_named(text) == Some(item)
    }

    open spec fn complaint(text: Seq<char>) -> Seq<char> {
        ParseError::VariantNotFound.words()
    }

    fn from_text(text: &str) -> (r: Result<Brand, String>) {
        match Brand::parse(text) {
            Ok(item) => Ok(item),
            Err(e) => Err(e.to_string()),
        }
    }
}

impl FromText for CarModel {
    open spec fn readable(text: Seq<char>) -> bool {
        car_model_named(text) is Some
    }

    open spec fn reads_as(text: Seq<char>, item: CarModel) -> bool {
        car_model_named(text) == Some(item)
    }

    open spec fn complaint(text: Seq<char>) -> Seq<char> {
        ParseError::VariantNotFound.words()
    }

    fn from_text(text: &str) -> (r: Result<CarModel, String>) {
        match CarModel::parse(text) {
            Ok(item) => Ok(item),
            Err(e) => Err(e.to_string()),
        }
    }
}

impl FromText for MotorbikeModel {
    open spec fn readable(text: Seq<char>) -> bool {
        motorbike_model_named(text) is Some
    }

    open spec fn reads_as(text: Seq<char>, item: MotorbikeModel) -> bool {
        motorbike_model_named(text) == Some(item)
    }

    open spec fn complaint(text: Seq<char>) -> Seq<char> {
        ParseError::VariantNotFound.words()
    }

    fn from_text(text: &str) -> (r: Result<MotorbikeModel, String>) {
        match MotorbikeModel::parse(text) {
            Ok(item) => Ok(item),
            Err(e) => Err(e.to_string()),
        }
    }
}

impl Brand {
    /// Whether the brand makes cars; the others make motorbikes.
    pub open spec fn spec_is_car_brand(self) -> bool {
        self == Brand::TESLA || self == Brand::MERCEDES
    }

    #[verifier::when_used_as_spec(spec_is_car_brand)]
    pub fn is_car_brand(self) -> (r: bool)
        ensures
            r == self.spec_is_car_brand(),
    {
        match self {
            Brand::TESLA | Brand::MERCEDES => true,
            _ => false,
        }
    }

    /// The category of the vehicles that the brand makes.
    pub open spec fn category(self) -> VehicleType {
        if self.spec_is_car_brand() {
            VehicleType::CAR
        } else {
            VehicleType::MOTORBIKE
        }
    }
}

impl CarModel {
    /// The brand whose model this is.
    pub open spec fn spec_brand(self) -> Brand {
        match self {
            CarModel::MODEL_S
            | CarModel::MODEL_3
            | CarModel::MODEL_X
            | CarModel::MODEL_Y
            | CarModel::CYBERTRUCK
            | CarModel::ROADSTER => Brand::TESLA,
            _ => Brand::MERCEDES,
        }
    }

    #[verifier::when_used_as_spec(spec_brand)]
    pub fn brand(self) -> (b: Brand)
        ensures
            b == self.spec_brand(),
    {
        match self {
            CarModel::MODEL_S
            | CarModel::MODEL_3
            | CarModel::MODEL_X
            | CarModel::MODEL_Y
            | CarModel::CYBERTRUCK
            | CarModel::ROADSTER => Brand::TESLA,
            CarModel::A_CLASS
            | CarModel::C_CLASS
            | CarModel::E_CLASS
            | CarModel::S_CLASS
            | CarModel::G_CLASS
            | CarModel::GLC
            | CarModel::GLE
            | CarModel::AMG_GT => Brand::MERCEDES,
        }
    }

    /// Whether the model is built with an electric drive only: the whole
    /// line of one brand.
    pub open spec fn spec_is_electric_only(self) -> bool {
        self.spec_brand() == Brand::TESLA
    }

    #[verifier::when_used_as_spec(spec_is_electric_only)]
    pub fn is_electric_only(self) -> (r: bool)
        ensures
            r == self.spec_is_electric_only(),
    {
        match self.brand() {
            Brand::TESLA => true,
            _ => false,
        }
    }
}

/// What is recorded of a car.
#[derive(Clone, Copy, Debug, PartialEq, Eq, Structural)]
pub struct CarMetadata {
    pub brand: Brand,
    pub model: CarModel,
    pub seats: u8,
    pub fuel_type: FuelType,
    pub gearbox: Gearbox,
    pub engine_cc: u32,
}

/// What is recorded of a motorbike.
#[derive(Clone, Copy, Debug, PartialEq, Eq, Structural)]
pub struct MotorbikeMetadata {
    pub brand: Brand,
    pub model: MotorbikeModel,
    pub engine_cc: u32,
    pub has_sidecar: bool,
}

/// What is recorded of a vehicle, by its category.
#[derive(Clone, Copy, Debug, PartialEq, Eq, Structural)]
pub enum VehicleMetadata {
    Car(CarMetadata),
    Motorbike(MotorbikeMetadata),
}

impl VehicleMetadata {
    /// The category that the metadata is of.
    pub open spec fn spec_vehicle_type(self) -> VehicleType {
        match self {
            VehicleMetadata::Car(_) => VehicleType::CAR,
            VehicleMetadata::Motorbike(_) => VehicleType::MOTORBIKE,
        }
    }

    #[verifier::when_used_as_spec(spec_vehicle_type)]
    pub fn vehicle_type(self) -> (t: VehicleType)
        ensures
            t == self.spec_vehicle_type(),
    {
        match self {
            VehicleMetadata::Car(_) => VehicleType::CAR,
            VehicleMetadata::Motorbike(_) => VehicleType::MOTORBIKE,
        }
    }
}

/// A vehicle that can be rented. The price of a day is held in hundredths of
/// the currency unit, the moment it was added in milliseconds since the Unix
/// epoch.
#[derive(Clone, Debug)]
pub struct Vehicle {
    pub id: Option<ObjectId>,
    pub brand: Brand,
    pub metadata: VehicleMetadata,
    pub description: Option<String>,
    pub price_by_day: i64,
    pub year_of_production: u32,
    pub added_at: i64,
    pub added_by: String,
}

pub ghost struct VehicleView {
    pub id: Option<ObjectId>,
    pub brand: Brand,
    pub metadata: VehicleMetadata,
    pub description: Option<Seq<char>>,
    pub price_by_day: i64,
    pub year_of_production: u32,
    pub added_at: i64,
    pub added_by: Seq<char>,
}

/// The characters of a text that may be absent.
pub open spec fn text_view(text: Option<String>) -> Option<Seq<char>> {
    match text {
        None => None,
        Some(s) => Some(s@),
    }
}

impl View for Vehicle {
    type V = VehicleView;

    open spec fn view(&self) -> VehicleView {
        VehicleView {
            id: self.id,
            brand: self.brand,
            metadata: self.metadata,
            description: text_view(self.description),
            price_by_day: self.price_by_day,
            year_of_production: self.year_of_production,
            added_at: self.added_at,
            added_by: self.added_by@,
        }
    }
}

/// What an administrator sends to add a vehicle.
#[derive(Clone, Debug)]
pub struct CreateVehicleRequest {
    pub brand: Brand,
    pub metadata: VehicleMetadata,
    pub description: Option<String>,
    pub price_by_day: i64,
    pub year_of_production: u32,
}

/// What a caller sends to change a vehicle. A description of `Some(None)`
/// clears the stored one.
#[derive(Clone, Debug)]
pub struct UpdateVehicleRequest {
    pub description: Option<Option<String>>,
    pub price_by_day: Option<i64>,
}

impl Vehicle {
    /// The vehicle that a request describes: not yet stored, added at
    /// `added_at` by the user `added_by`.
    pub fn new(
        request: CreateVehicleRequest,
        added_by: String,
        added_at: i64,
    ) -> (r: Result<Vehicle, String>)
        ensures
            r is Ok,
            r->Ok_0@ == (VehicleView {
                id: None,
                brand: request.brand,
                metadata: request.metadata,
                description: text_view(request.description),
                price_by_day: request.price_by_day,
                year_of_production: request.year_of_production,
                added_at,
                added_by: added_by@,
            }),
    {
        Ok(
            Vehicle {
                id: None,
                brand: request.brand,
                metadata: request.metadata,
                description: request.description,
                price_by_day: request.price_by_day,
                year_of_production: request.year_of_production,
                added_at,
                added_by,
            },
        )
    }
}

} // verus!
