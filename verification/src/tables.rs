//! The lookup tables: for each field, what its codes stand for.

use vstd::hash_map::StringHashMap;
use vstd::prelude::*;
use vstd::string::*;

verus! {

/// The lookup table of one field: from a raw code to its description.
pub struct CodeTable {
    codes: StringHashMap<&'static str>,
}

impl View for CodeTable {
    type V = Map<Seq<char>, Seq<char>>;

    closed spec fn view(&self) -> Map<Seq<char>, Seq<char>> {
        self.codes@.map_values(|description: &'static str| description@)
    }
}

impl CodeTable {
    /// A table without codes.
    pub fn new() -> (table: Self)
        ensures
            table@ == Map::<Seq<char>, Seq<char>>::empty(),
    {
        let table = CodeTable { codes: StringHashMap::new() };
        assert(table@ =~= Map::<Seq<char>, Seq<char>>::empty());
        table
    }

    /// Puts a description under a code, in place of the one that it had.
    pub fn insert(&mut self, code: &str, description: &'static str)
        ensures
            final(self)@ == old(self)@.insert(code@, description@),
    {
        self.codes.insert(String::from_str(code), description);
        assert(self@ =~= old(self)@.insert(code@, description@));
    }

    /// The description of a code, if the table holds the code.
    pub fn get(&self, code: &str) -> (description: Option<&'static str>)
        ensures
            match description {
                Some(text) => self@.contains_key(code@) && text@ == self@[code@],
                None => !self@.contains_key(code@),
            },
    {
        match self.codes.get(code) {
            Some(text) => Some(*text),
            None => None,
        }
    }
}

/// The lookup tables of all fields, each under its field's key.
pub struct DecodeMap {
    tables: StringHashMap<CodeTable>,
}

impl View for DecodeMap {
    type V = Map<Seq<char>, Map<Seq<char>, Seq<char>>>;

    closed spec fn view(&self) -> Map<Seq<char>, Map<Seq<char>, Seq<char>>> {
        self.tables@.map_values(|table: CodeTable| table@)
    }
}

/// The description that tables hold for a code of a field, if they hold one.
pub open spec fn description_of(
    tables: Map<Seq<char>, Map<Seq<char>, Seq<char>>>,
    field: Seq<char>,
    code: Seq<char>,
) -> Option<Seq<char>> {
    if tables.contains_key(field) && tables[field].contains_key(code) {
        Some(tables[field][code])
    } else {
        None
    }
}

impl DecodeMap {
    /// Tables for no field.
    pub fn new() -> (map: Self)
        ensures
            map@ == Map::<Seq<char>, Map<Seq<char>, Seq<char>>>::empty(),
    {
        let map = DecodeMap { tables: StringHashMap::new() };
        assert(map@ =~= Map::<Seq<char>, Map<Seq<char>, Seq<char>>>::empty());
        map
    }

    /// Puts a table under a field's key, in place of the one that it had.
    pub fn insert(&mut self, field: &str, table: CodeTable)
        ensures
            final(self)@ == old(self)@.insert(field@, table@),
    {
        self.tables.insert(String::from_str(field), table);
        assert(self@ =~= old(self)@.insert(field@, table@));
    }

    /// The table of a field, if there is one.
    pub fn get(&self, field: &str) -> (table: Option<&CodeTable>)
        ensures
            match table {
                Some(found) => self@.contains_key(field@) && found@ == self@[field@],
                None => !self@.contains_key(field@),
            },
    {
        self.tables.get(field)
    }

    /// Looks up what a raw code of a field stands for. That the tables do
    /// not know a code is an answer too, and differs from an empty code.
    pub fn lookup(&self, field: &str, code: &str) -> (description: Option<&'static str>)
        ensures
            match description {
                Some(text) => description_of(self@, field@, code@) == Some(text@),
                None => description_of(self@, field@, code@) is None,
            },
    {
        match self.get(field) {
            Some(table) => table.get(code),
            None => None,
        }
    }
}

/// The lookup tables of the identification code.
pub open spec fn decode_tables() -> Map<Seq<char>, Map<Seq<char>, Seq<char>>> {
    map![
        "Country"@ => map!["U"@ => "Corris Britain"@],
        "AssemblyPlant"@ => map!["A"@ => "Dagenham"@, "B"@ => "Manchester"@, "C"@ => "Saarlouis"@, "K"@ => "Rheine"@],
        "Model"@ => map!["B"@ => "Rivett"@],
        "Body"@ => map!["B"@ => "2D Pillared Sedan"@],
        "Version"@ => map!["D"@ => "L"@, "E"@ => "LX"@, "G"@ => "SLX"@, "P"@ => "GT"@],
        "Year"@ => map!["L"@ => "1971"@, "M"@ => "1972"@, "N"@ => "1973"@, "P"@ => "1974 (Facelift)"@, "R"@ => "1975"@, "S"@ => "1976"@],
        "Month"@ => map!["C"@ => "01"@, "K"@ => "02"@, "D"@ => "03"@, "E"@ => "04"@, "L"@ => "05"@, "Y"@ => "06"@, "S"@ => "07"@, "T"@ => "08"@, "J"@ => "09"@, "U"@ => "10"@, "M"@ => "11"@, "P"@ => "12"@],
        "Drive"@ => map!["1"@ => "RWD"@],
        "Engine"@ => map!["NA"@ => "Standard 2.0"@, "NE"@ => "High Performance 2.0"@],
        "Gearbox"@ => map!["7"@ => "3-spd Automatic"@, "B"@ => "4-spd Manual"@],
        "AxleRatio"@ => map!["S"@ => "3.44"@, "B"@ => "3.75"@, "C"@ => "3.89"@, "N"@ => "4.11"@, "E"@ => "4.44"@],
        "AxleLock"@ => map!["A"@ => "Open"@, "B"@ => "LSD"@],
        "ColorsBody"@ => map!["A"@ => "Dark Grey"@, "B"@ => "Nature White"@, "C"@ => "Sand"@, "D"@ => "Asphalt Grey"@, "E"@ => "Blue"@, "F"@ => "Sun Yellow"@, "G"@ => "Dark Navy"@, "H"@ => "Royal Red"@, "I"@ => "Brown"@, "J"@ => "Red"@, "K"@ => "Electric Green"@, "L"@ => "White Pearl"@, "M"@ => "Spring Green"@, "R"@ => "Purple"@, "T"@ => "Yellow"@, "U"@ => "Sky Blue"@, "V"@ => "Orange"@, "X"@ => "Navy Blue"@, "Y"@ => "Special"@],
        "VinylRoof"@ => map!["-"@ => "Paint"@, "A"@ => "Black"@, "B"@ => "White"@, "C"@ => "Tan"@, "K"@ => "Blue"@, "M"@ => "Dark Brown"@],
        "InteriorTrim"@ => map!["N"@ => "Red"@, "A"@ => "Black"@, "K"@ => "Tan"@, "F"@ => "Blue"@, "Y"@ => "Special"@],
        "Radio"@ => map!["-"@ => "Radio delete"@, "J"@ => "Radio"@],
        "InstrumentPanel"@ => map!["-"@ => "Standard"@, "G"@ => "Clock"@, "M"@ => "Tachometer"@],
        "Windshield"@ => map!["1"@ => "Clear"@, "2"@ => "Tinted"@, "F"@ => "Sunstrip"@],
        "Seats"@ => map!["8"@ => "Standard"@, "B"@ => "Bucket Style"@],
        "Suspension"@ => map!["A"@ => "Standard"@, "B"@ => "Standard + Stiffened"@, "4"@ => "Lowered"@, "M"@ => "Lowered + Stiffened"@],
        "PowerBrakes"@ => map!["-"@ => "Standard"@, "B"@ => "Power Brakes"@],
        "Wheels"@ => map!["A"@ => "13\" Steel"@, "B"@ => "13\" Steel + hubcaps"@, "4"@ => "14\" Sport"@, "M"@ => "14\" Steel / 14\" Octo"@],
        "WindowHeater"@ => map!["-"@ => "Standard"@, "B"@ => "Heated"@, "M"@ => "Standard + Window Grille"@],
    ]
}

/// Builds the lookup tables of the identification code.
pub fn decode_map() -> (map: DecodeMap)
    ensures
        map@ == decode_tables(),
{
    let mut map = DecodeMap::new();
    let mut table = CodeTable::new();
    table.insert("U", "Corris Britain");
    map.insert("Country", table);
    let mut table = CodeTable::new();
    table.insert("A", "Dagenham");
    table.insert("B", "Manchester");
    table.insert("C", "Saarlouis");
    table.insert("K", "Rheine");
    map.insert("AssemblyPlant", table);
    let mut table = CodeTable::new();
    table.insert("B", "Rivett");
    map.insert("Model", table);
    let mut table = CodeTable::new();
    table.insert("B", "2D Pillared Sedan");
    map.insert("Body", table);
    let mut table = CodeTable::new();
    table.insert("D", "L");
    table.insert("E", "LX");
    table.insert("G", "SLX");
    table.insert("P", "GT");
    map.insert("Version", table);
    let mut table = CodeTable::new();
    table.insert("L", "1971");
    table.insert("M", "1972");
    table.insert("N", "1973");
    table.insert("P", "1974 (Facelift)");
    table.insert("R", "1975");
    table.insert("S", "1976");
    map.insert("Year", table);
    let mut table = CodeTable::new();
    table.insert("C", "01");
    table.insert("K", "02");
    table.insert("D", "03");
    table.insert("E", "04");
    table.insert("L", "05");
    table.insert("Y", "06");
    table.insert("S", "07");
    table.insert("T", "08");
    table.insert("J", "09");
    table.insert("U", "10");
    table.insert("M", "11");
    table.insert("P", "12");
    map.insert("Month", table);
    let mut table = CodeTable::new();
    table.insert("1", "RWD");
    map.insert("Drive", table);
    let mut table = CodeTable::new();
    table.insert("NA", "Standard 2.0");
    table.insert("NE", "High Performance 2.0");
    map.insert("Engine", table);
    let mut table = CodeTable::new();
    table.insert("7", "3-spd Automatic");
    table.insert("B", "4-spd Manual");
    map.insert("Gearbox", table);
    let mut table = CodeTable::new();
    table.insert("S", "3.44");
    table.insert("B", "3.75");
    table.insert("C", "3.89");
    table.insert("N", "4.11");
    table.insert("E", "4.44");
    map.insert("AxleRatio", table);
    let mut table = CodeTable::new();
    table.insert("A", "Open");
    table.insert("B", "LSD");
    map.insert("AxleLock", table);
    let mut table = CodeTable::new();
    table.insert("A", "Dark Grey");
    table.insert("B", "Nature White");
    table.insert("C", "Sand");
    table.insert("D", "Asphalt Grey");
    table.insert("E", "Blue");
    table.insert("F", "Sun Yellow");
    table.insert("G", "Dark Navy");
    table.insert("H", "Royal Red");
    table.insert("I", "Brown");
    table.insert("J", "Red");
    table.insert("K", "Electric Green");
    table.insert("L", "White Pearl");
    table.insert("M", "Spring Green");
    table.insert("R", "Purple");
    table.insert("T", "Yellow");
    table.insert("U", "Sky Blue");
    table.insert("V", "Orange");
    table.insert("X", "Navy Blue");
    table.insert("Y", "Special");
    map.insert("ColorsBody", table);
    let mut table = CodeTable::new();
    table.insert("-", "Paint");
    table.insert("A", "Black");
    table.insert("B", "White");
    table.insert("C", "Tan");
    table.insert("K", "Blue");
    table.insert("M", "Dark Brown");
    map.insert("VinylRoof", table);
    let mut table = CodeTable::new();
    table.insert("N", "Red");
    table.insert("A", "Black");
    table.insert("K", "Tan");
    table.insert("F", "Blue");
    table.insert("Y", "Special");
    map.insert("InteriorTrim", table);
    let mut table = CodeTable::new();
    table.insert("-", "Radio delete");
    table.insert("J", "Radio");
    map.insert("Radio", table);
    let mut table = CodeTable::new();
    table.insert("-", "Standard");
    table.insert("G", "Clock");
    table.insert("M", "Tachometer");
    map.insert("InstrumentPanel", table);
    let mut table = CodeTable::new();
    table.insert("1", "Clear");
    table.insert("2", "Tinted");
    table.insert("F", "Sunstrip");
    map.insert("Windshield", table);
    let mut table = CodeTable::new();
    table.insert("8", "Standard");
    table.insert("B", "Bucket Style");
    map.insert("Seats", table);
    let mut table = CodeTable::new();
    table.insert("A", "Standard");
    table.insert("B", "Standard + Stiffened");
    table.insert("4", "Lowered");
    table.insert("M", "Lowered + Stiffened");
    map.insert("Suspension", table);
    let mut table = CodeTable::new();
    table.insert("-", "Standard");
    table.insert("B", "Power Brakes");
    map.insert("PowerBrakes", table);
    let mut table = CodeTable::new();
    table.insert("A", "13\" Steel");
    table.insert("B", "13\" Steel + hubcaps");
    table.insert("4", "14\" Sport");
    table.insert("M", "14\" Steel / 14\" Octo");
    map.insert("Wheels", table);
    let mut table = CodeTable::new();
    table.insert("-", "Standard");
    table.insert("B", "Heated");
    table.insert("M", "Standard + Window Grille");
    map.insert("WindowHeater", table);
    map
}

} // verus!
