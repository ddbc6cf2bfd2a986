//! Whole C files: an ordered, append-only list of file-level statements,
//! rendered one after another, each on its own line, at the standard width
//! of eighty columns.
use vstd::prelude::*;

use crate::ast::{Declaration as TypeDeclaration, Definition as TypeDefinition};
use crate::compose::{declaration_docv, definition_docv};
use crate::doc::{render, rendered, DocV, Document};
use crate::function::{fn_decl_docv, fn_def_docv, Declaration as FunctionDeclaration,
    Definition as FunctionDefinition};
use crate::statement::{include_docv, Include};
use crate::variable::{var_decl_docv, Declaration as VariableDeclaration};

verus! {

/// What may stand at the top level of a C file.
pub enum FileLevelStatement {
    FunctionDeclaration(FunctionDeclaration),
    FunctionDefinition(FunctionDefinition),
    Include(Include),
    TypeDeclaration(TypeDeclaration),
    TypeDefinition(TypeDefinition),
    VariableDeclaration(VariableDeclaration),
}

/// The document for one file-level statement.
pub open spec fn file_stmt_docv(s: FileLevelStatement) -> DocV {
    match s {
        FileLevelStatement::FunctionDeclaration(d) => fn_decl_docv(d),
        FileLevelStatement::FunctionDefinition(d) => fn_def_docv(d),
        FileLevelStatement::Include(i) => include_docv(i),
        FileLevelStatement::TypeDeclaration(d) => declaration_docv(d),
        FileLevelStatement::TypeDefinition(d) => definition_docv(d),
        FileLevelStatement::VariableDeclaration(d) => var_decl_docv(d),
    }
}

/// The text of a whole file: each statement rendered at width eighty and
/// followed by a newline.
pub open spec fn file_text(ss: Seq<FileLevelStatement>) -> Seq<char>
    decreases ss.len(),
{
    if ss.len() == 0 {
        Seq::<char>::empty()
    } else {
        rendered(file_stmt_docv(ss[0]), 80) + seq!['\n'] + file_text(ss.drop_first())
    }
}

impl FileLevelStatement {
    /// The document for this statement.
    pub fn pretty(&self) -> (d: Document)
        ensures
            d@ == file_stmt_docv(*self),
    {
        match self {
            FileLevelStatement::FunctionDeclaration(d) => d.pretty(),
            FileLevelStatement::FunctionDefinition(d) => d.pretty(),
            FileLevelStatement::Include(i) => i.pretty(),
            FileLevelStatement::TypeDeclaration(d) => d.pretty(),
            FileLevelStatement::TypeDefinition(d) => d.pretty(),
            FileLevelStatement::VariableDeclaration(d) => d.pretty(),
        }
    }
}

/// Builds a C file as an ordered, append-only list of file-level statements.
pub struct CFileBuilder {
    statements: Vec<FileLevelStatement>,
}

impl View for CFileBuilder {
    type V = Seq<FileLevelStatement>;

    closed spec fn view(&self) -> Seq<FileLevelStatement> {
        self.statements@
    }
}

impl Default for CFileBuilder {
    /// An empty file.
    fn default() -> (b: CFileBuilder)
        ensures
            b@ == Seq::<FileLevelStatement>::empty(),
    {
        CFileBuilder { statements: Vec::new() }
    }
}

impl CFileBuilder {
    /// An empty file.
    pub fn new() -> (b: CFileBuilder)
        ensures
            b@ == Seq::<FileLevelStatement>::empty(),
    {
        CFileBuilder { statements: Vec::new() }
    }

    /// Appends a statement to the file.
    pub fn add_statement(&mut self, statement: FileLevelStatement)
        ensures
            final(self)@ == old(self)@.push(statement),
    {
        self.statements.push(statement);
    }

    /// Generates the C code of the whole file: every statement rendered at
    /// width eighty, each followed by a newline, in the order added.
    #[verifier::rlimit(100)]
    pub fn generate(&self) -> (r: String)
        ensures
            r@ == file_text(self@),
    {
        let mut out = String::new();
        let mut i: usize = 0;
        proof {
            assert(self.statements@.subrange(0, self.statements@.len() as int)
                =~= self.statements@);
            assert(Seq::<char>::empty() + file_text(self.statements@)
                =~= file_text(self.statements@));
        }
        while i < self.statements.len()
            invariant
                0 <= i <= self.statements@.len(),
                out@ + file_text(self.statements@.subrange(i as int, self.statements@.len() as int))
                    == file_text(self.statements@),
            decreases self.statements@.len() - i,
        {
            let piece = render(&self.statements[i].pretty(), 80);
            out.append(piece.as_str());
            out.append("\n");
            proof {
                reveal_strlit("\n");
                let ghost s = self.statements@.subrange(i as int, self.statements@.len() as int);
                assert(s[0] == self.statements@[i as int]);
                assert(s.drop_first() =~= self.statements@.subrange(
                    i as int + 1,
                    self.statements@.len() as int,
                ));
                assert("\n"@ =~= seq!['\n']);
                assert(out@ + file_text(self.statements@.subrange(
                    i as int + 1,
                    self.statements@.len() as int,
                )) =~= file_text(self.statements@));
            }
            i = i + 1;
        }
        proof {
            assert(self.statements@.subrange(
                self.statements@.len() as int,
                self.statements@.len() as int,
            ) =~= Seq::<FileLevelStatement>::empty());
            assert(out@ =~= file_text(self.statements@));
        }
        out
    }

    /// The C code of the whole file, as [`CFileBuilder::generate`] produces
    /// it.
    pub fn write_to_string(&self) -> (r: String)
        ensures
            r@ == file_text(self@),
    {
        self.generate()
    }
}

} // verus!
