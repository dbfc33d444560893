//! Error type shared by the whole library.
//!
//! Every error reads as a plain sentence; [`PolyhedraError::message`] gives it.

use vstd::prelude::*;
use crate::text::{decimal, push_decimal};

verus! {

/// The top-level error type for all polyhedra operations.
#[derive(Debug)]
pub enum PolyhedraError {
    // ── Parser errors ─────────────────────────────────────────────────────
    ParseError { line: usize, col: usize, message: String },
    MissingUnit { line: usize },
    UnknownUnit { unit: String, line: usize },
    UndefinedVariable { name: String, line: usize },
    CircularReference { cycle: String },
    // ── Import errors ─────────────────────────────────────────────────────
    FileNotFound { path: String },
    CircularImport { cycle: String },
    AssemblyInObjectFile { path: String },
    DefineInMainFile,
    // ── Geometry errors ───────────────────────────────────────────────────
    GeometryError { message: String },
    OpenProfile { name: String },
    LoftOpenProfile { name: String },
    ResolutionTooHigh,
    EmptyMesh,
    // ── Export errors ─────────────────────────────────────────────────────
    ExportError { path: String, message: String },
    UnknownFormat { format: String },
}

impl PolyhedraError {
    /// The sentence that reports the error.
    pub open spec fn spec_message(&self) -> Seq<char> {
        match self {
            PolyhedraError::ParseError { line, col, message } => "Syntax error on line "@ + decimal(line as nat) + ", column "@ + decimal(col as nat) + ": "@ + message@,
            PolyhedraError::MissingUnit { line } => "Missing unit on line "@ + decimal(line as nat) + ". Try adding a unit like 'mm', 'cm', 'in'. Example: \"radius = 10mm\""@,
            PolyhedraError::UnknownUnit { unit, line } => "Unknown unit '"@ + unit@ + "' on line "@ + decimal(line as nat) + ". Supported units: mm, cm, m, in, ft, degrees, percent."@,
            PolyhedraError::UndefinedVariable { name, line } => "Variable '"@ + name@ + "' is used on line "@ + decimal(line as nat) + " but was never defined. Add \"let "@ + name@ + " = <value>\" before using it."@,
            PolyhedraError::CircularReference { cycle } => "Circular variable reference detected: "@ + cycle@ + ". Variable definitions cannot refer to themselves."@,
            PolyhedraError::FileNotFound { path } => "File not found: \""@ + path@ + "\". Check that the file exists and the path is correct."@,
            PolyhedraError::CircularImport { cycle } => "Circular import detected: "@ + cycle@ + ". File A cannot use File B if File B also uses File A."@,
            PolyhedraError::AssemblyInObjectFile { path } => "File \""@ + path@ + "\" uses 'assemble as' or 'export:', which are only allowed in main.polyh. Object files can only use 'define' and 'sketch'."@,
            PolyhedraError::DefineInMainFile => "main.polyh uses 'define' or 'sketch', which are not allowed in the main file. Move them to a separate object file and use it with 'use'."@,
            PolyhedraError::GeometryError { message } => "Geometry error: "@ + message@,
            PolyhedraError::OpenProfile { name } => "Sketch profile '"@ + name@ + "' is not closed. The last point does not connect back to the first point."@,
            PolyhedraError::LoftOpenProfile { name } => "Loft requires all profiles to be closed, but '"@ + name@ + "' is open. Close the profile by connecting the last curve back to the start."@,
            PolyhedraError::ResolutionTooHigh => "Mesh resolution is too high. Try a larger refinement value (e.g. 0.01 instead of 0.0001) or reduce model complexity."@,
            PolyhedraError::EmptyMesh => "The geometry produced an empty mesh. Check that objects actually overlap or that dimensions are not zero."@,
            PolyhedraError::ExportError { path, message } => "Export error writing to \""@ + path@ + "\": "@ + message@,
            PolyhedraError::UnknownFormat { format } => "Unknown export format '"@ + format@ + "'. Supported formats: stl, obj, gltf, ply, all."@,
        }
    }

    /// The sentence that reports the error to a user.
    pub fn message(&self) -> (r: String)
        ensures
            r@ == self.spec_message(),
    {
        match self {
            PolyhedraError::ParseError { line, col, message } => {
                let mut s = "Syntax error on line ".to_owned();
                push_decimal(&mut s, *line as u64);
                s.append(", column ");
                push_decimal(&mut s, *col as u64);
                s.append(": ");
                s.append(message.as_str());
                s
            },
            PolyhedraError::MissingUnit { line } => {
                let mut s = "Missing unit on line ".to_owned();
                push_decimal(&mut s, *line as u64);
                s.append(". Try adding a unit like 'mm', 'cm', 'in'. Example: \"radius = 10mm\"");
                s
            },
            PolyhedraError::UnknownUnit { unit, line } => {
                let mut s = "Unknown unit '".to_owned();
                s.append(unit.as_str());
                s.append("' on line ");
                push_decimal(&mut s, *line as u64);
                s.append(". Supported units: mm, cm, m, in, ft, degrees, percent.");
                s
            },
            PolyhedraError::UndefinedVariable { name, line } => {
                let mut s = "Variable '".to_owned();
                s.append(name.as_str());
                s.append("' is used on line ");
                push_decimal(&mut s, *line as u64);
                s.append(" but was never defined. Add \"let ");
                s.append(name.as_str());
                s.append(" = <value>\" before using it.");
                s
            },
            PolyhedraError::CircularReference { cycle } => {
                let mut s = "Circular variable reference detected: ".to_owned();
                s.append(cycle.as_str());
                s.append(". Variable definitions cannot refer to themselves.");
                s
            },
            PolyhedraError::FileNotFound { path } => {
                let mut s = "File not found: \"".to_owned();
                s.append(path.as_str());
                s.append("\". Check that the file exists and the path is correct.");
                s
            },
            PolyhedraError::CircularImport { cycle } => {
                let mut s = "Circular import detected: ".to_owned();
                s.append(cycle.as_str());
                s.append(". File A cannot use File B if File B also uses File A.");
                s
            },
            PolyhedraError::AssemblyInObjectFile { path } => {
                let mut s = "File \"".to_owned();
                s.append(path.as_str());
                s.append("\" uses 'assemble as' or 'export:', which are only allowed in main.polyh. Object files can only use 'define' and 'sketch'.");
                s
            },
            PolyhedraError::DefineInMainFile => {
                let mut s = "main.polyh uses 'define' or 'sketch', which are not allowed in the main file. Move them to a separate object file and use it with 'use'.".to_owned();
                s
            },
            PolyhedraError::GeometryError { message } => {
                let mut s = "Geometry error: ".to_owned();
                s.append(message.as_str());
                s
            },
            PolyhedraError::OpenProfile { name } => {
                let mut s = "Sketch profile '".to_owned();
                s.append(name.as_str());
                s.append("' is not closed. The last point does not connect back to the first point.");
                s
            },
            PolyhedraError::LoftOpenProfile { name } => {
                let mut s = "Loft requires all profiles to be closed, but '".to_owned();
                s.append(name.as_str());
                s.append("' is open. Close the profile by connecting the last curve back to the start.");
                s
            },
            PolyhedraError::ResolutionTooHigh => {
                let mut s = "Mesh resolution is too high. Try a larger refinement value (e.g. 0.01 instead of 0.0001) or reduce model complexity.".to_owned();
                s
            },
            PolyhedraError::EmptyMesh => {
                let mut s = "The geometry produced an empty mesh. Check that objects actually overlap or that dimensions are not zero.".to_owned();
                s
            },
            PolyhedraError::ExportError { path, message } => {
                let mut s = "Export error writing to \"".to_owned();
                s.append(path.as_str());
                s.append("\": ");
                s.append(message.as_str());
                s
            },
            PolyhedraError::UnknownFormat { format } => {
                let mut s = "Unknown export format '".to_owned();
                s.append(format.as_str());
                s.append("'. Supported formats: stl, obj, gltf, ply, all.");
                s
            },
        }
    }
}

} // verus!
