//! The text of the shaders.
use crate::resource::{ShaderFile, ShaderModule};
use vstd::prelude::*;

verus! {

/// The text of every file of shader code.
#[derive(Debug)]
pub struct Sources {
    /// The text of `triangle.wgsl`.
    pub triangle: String,
    /// The text of `triangle/solid.wgsl`.
    pub solid: String,
    /// The text of `triangle/gradient.wgsl`.
    pub gradient: String,
    /// The text of `color/oklab.wgsl`.
    pub oklab: String,
    /// The text of `color/linear_rgb.wgsl`.
    pub linear_rgb: String,
}

impl Sources {
    /// The text of a file.
    pub open spec fn text(&self, file: ShaderFile) -> Seq<char> {
        match file {
            ShaderFile::Triangle => self.triangle@,
            ShaderFile::Solid => self.solid@,
            ShaderFile::Gradient => self.gradient@,
            ShaderFile::Oklab => self.oklab@,
            ShaderFile::LinearRgb => self.linear_rgb@,
        }
    }

    /// The text of some files, with a line break between every two of them.
    pub open spec fn joined(&self, files: Seq<ShaderFile>) -> Seq<char>
        decreases files.len(),
    {
        if files.len() == 0 {
            Seq::empty()
        } else if files.len() == 1 {
            self.text(files[0])
        } else {
            self.joined(files.drop_last()) + seq!['\n'] + self.text(files.last())
        }
    }

    /// Returns the text of a file.
    pub fn file(&self, file: ShaderFile) -> (text: &str)
        ensures
            text@ == self.text(file),
    {
        match file {
            ShaderFile::Triangle => self.triangle.as_str(),
            ShaderFile::Solid => self.solid.as_str(),
            ShaderFile::Gradient => self.gradient.as_str(),
            ShaderFile::Oklab => self.oklab.as_str(),
            ShaderFile::LinearRgb => self.linear_rgb.as_str(),
        }
    }
}

impl ShaderModule {
    /// Puts the text of the module together.
    pub fn source(&self, sources: &Sources) -> (text: String)
        ensures
            text@ == sources.joined(self.files@),
    {
        let mut text: String = String::new();
        let mut i: usize = 0;

        proof {
            reveal_strlit("\n");
            assert("\n"@ =~= seq!['\n']);
        }

        while i < self.files.len()
            invariant
                i <= self.files@.len(),
                text@ == sources.joined(self.files@.take(i as int)),
                "\n"@ == seq!['\n'],
            decreases self.files@.len() - i,
        {
            if i > 0 {
                text.append("\n");
            }
            text.append(sources.file(self.files[i]));

            proof {
                assert(self.files@.take(i + 1).drop_last() =~= self.files@.take(i as int));
                assert(text@ =~= sources.joined(self.files@.take(i + 1)));
            }

            i = i + 1;
        }

        proof {
            assert(self.files@.take(self.files@.len() as int) =~= self.files@);
        }

        text
    }
}

} // verus!
