//! The Dockerfiles that the command-line tool writes for a language's image:
//! a template for each known language, and a plain one for any other.
use vstd::prelude::*;
use vstd::string::*;
use crate::text::concat;

verus! {

pub const HEADER: &'static str = "# Managed by optimus-cli: add-lang rewrites this file\n";

pub const PYTHON_HEAD: &'static str = "# Python Execution Environment - Optimized for Cold Start\nFROM python:";

pub const PYTHON_TAIL: &'static str = "\n\n# Set environment variables for performance\nENV PYTHONUNBUFFERED=1 \\\n    PYTHONDONTWRITEBYTECODE=1 \\\n    PIP_NO_CACHE_DIR=1 \\\n    PIP_DISABLE_PIP_VERSION_CHECK=1 \\\n    LANGUAGE=python\n\nWORKDIR /code\n\n# Install common packages (pre-installed at build time, not runtime)\nRUN pip install --no-cache-dir \\\n    pytest==7.4.3 \\\n    numpy==1.26.2 \\\n    requests==2.31.0\n\n# Copy universal runner script (build context is repo root)\nCOPY dockerfiles/runner.sh /runner.sh\nRUN chmod +x /runner.sh\n\n# Create non-root user for security\nRUN useradd -m -u 1000 optimus && \\\n    chown -R optimus:optimus /code\n\nUSER optimus\n\n# Use universal runner\nENTRYPOINT [\"/runner.sh\"]\n";

pub const JAVA_HEAD: &'static str = "# Java Execution Environment - Optimized for Cold Start\nFROM eclipse-temurin:";

pub const JAVA_TAIL: &'static str = "-jdk-alpine\n\n# Set environment variables for performance\nENV JAVA_TOOL_OPTIONS=\"-XX:+UseContainerSupport -XX:MaxRAMPercentage=75.0 -XX:+TieredCompilation -XX:TieredStopAtLevel=1\" \\\n    LANGUAGE=java\n\nWORKDIR /code\n\n# Install JUnit and bash at build time (bash needed for runner.sh)\nRUN apk add --no-cache wget bash && \\\n    wget -q https://repo1.maven.org/maven2/junit/junit/4.13.2/junit-4.13.2.jar -P /opt/ && \\\n    wget -q https://repo1.maven.org/maven2/org/hamcrest/hamcrest-core/1.3/hamcrest-core-1.3.jar -P /opt/ && \\\n    apk del wget && \\\n    rm -rf /var/cache/apk/*\n\nENV CLASSPATH=/opt/junit-4.13.2.jar:/opt/hamcrest-core-1.3.jar\n\n# Copy universal runner script (build context is repo root)\nCOPY dockerfiles/runner.sh /runner.sh\nRUN chmod +x /runner.sh\n\n# Create non-root user for security\nRUN adduser -D -u 1000 optimus && \\\n    chown -R optimus:optimus /code\n\nUSER optimus\n\n# Use universal runner\nENTRYPOINT [\"/runner.sh\"]\n";

pub const CPP_HEAD: &'static str = "# C++ Execution Environment\nFROM gcc:";

pub const CPP_TAIL: &'static str = "\n\n# Set environment variables\nENV LANGUAGE=cpp\n\nWORKDIR /code\n\n# Install necessary build tools\nRUN apt-get update && apt-get install -y --no-install-recommends \\\n    build-essential \\\n    && rm -rf /var/lib/apt/lists/*\n\n# Copy universal runner script (build context is repo root)\nCOPY dockerfiles/runner.sh /runner.sh\nRUN chmod +x /runner.sh\n\n# Create non-root user for security\nRUN useradd -m -u 1000 optimus && \\\n    chown -R optimus:optimus /code\n\nUSER optimus\n\n# Use universal runner\nENTRYPOINT [\"/runner.sh\"]\n";

pub const GO_HEAD: &'static str = "# Go Execution Environment\nFROM golang:";

pub const GO_TAIL: &'static str = "\n\n# Set environment variables\nENV GO111MODULE=on \\\n    CGO_ENABLED=0 \\\n    LANGUAGE=go\n\nWORKDIR /code\n\n# Copy universal runner script (build context is repo root)\nCOPY dockerfiles/runner.sh /runner.sh\nRUN chmod +x /runner.sh\n\n# Create non-root user for security\nRUN useradd -m -u 1000 optimus && \\\n    chown -R optimus:optimus /code\n\nUSER optimus\n\n# Use universal runner\nENTRYPOINT [\"/runner.sh\"]\n";

pub const NODE_HEAD: &'static str = "# Node.js Execution Environment\nFROM node:";

pub const NODE_TAIL: &'static str = "\n\n# Set environment variables\nENV LANGUAGE=javascript\n\nWORKDIR /code\n\n# Install necessary tools\nRUN npm install -g typescript ts-node\n\n# Copy universal runner script (build context is repo root)\nCOPY dockerfiles/runner.sh /runner.sh\nRUN chmod +x /runner.sh\n\n# Create non-root user for security\nRUN useradd -m -u 1000 optimus && \\\n    chown -R optimus:optimus /code\n\nUSER optimus\n\n# Use universal runner\nENTRYPOINT [\"/runner.sh\"]\n";

pub const RUST_HEAD: &'static str = "# Rust Execution Environment - Optimized for Code Execution\nFROM rust:";

pub const RUST_TAIL: &'static str = "\n\n# Set environment variables for performance\nENV CARGO_HOME=/usr/local/cargo \\\n    RUSTUP_HOME=/usr/local/rustup \\\n    PATH=/usr/local/cargo/bin:$PATH \\\n    RUSTFLAGS=\"-C opt-level=2 -C debuginfo=0\" \\\n    LANGUAGE=rust\n\nWORKDIR /code\n\n# Install required packages\nRUN apt-get update && apt-get install -y --no-install-recommends \\\n    ca-certificates \\\n    && rm -rf /var/lib/apt/lists/*\n\n# Copy universal runner script (build context is repo root)\nCOPY dockerfiles/runner.sh /runner.sh\nRUN chmod +x /runner.sh\n\n# Create non-root user for security\nRUN useradd -m -u 1000 optimus && \\\n    chown -R optimus:optimus /code\n\nUSER optimus\n\n# Use universal runner\nENTRYPOINT [\"/runner.sh\"]\n";

pub open spec fn python_dockerfile(version: Seq<char>) -> Seq<char> {
    HEADER@ + PYTHON_HEAD@ + version + PYTHON_TAIL@
}

pub open spec fn java_dockerfile(version: Seq<char>) -> Seq<char> {
    HEADER@ + JAVA_HEAD@ + version + JAVA_TAIL@
}

pub open spec fn cpp_dockerfile(version: Seq<char>) -> Seq<char> {
    HEADER@ + CPP_HEAD@ + version + CPP_TAIL@
}

pub open spec fn go_dockerfile(version: Seq<char>) -> Seq<char> {
    HEADER@ + GO_HEAD@ + version + GO_TAIL@
}

pub open spec fn node_dockerfile(version: Seq<char>) -> Seq<char> {
    HEADER@ + NODE_HEAD@ + version + NODE_TAIL@
}

pub open spec fn rust_dockerfile(version: Seq<char>) -> Seq<char> {
    HEADER@ + RUST_HEAD@ + version + RUST_TAIL@
}

pub fn generate_python_dockerfile(version: &str) -> (r: String)
    ensures
        r@ == python_dockerfile(version@),
{
    let mut s = concat(HEADER, PYTHON_HEAD);
    s.append(version);
    s.append(PYTHON_TAIL);
    s
}

pub fn generate_java_dockerfile(version: &str) -> (r: String)
    ensures
        r@ == java_dockerfile(version@),
{
    let mut s = concat(HEADER, JAVA_HEAD);
    s.append(version);
    s.append(JAVA_TAIL);
    s
}

pub fn generate_cpp_dockerfile(version: &str) -> (r: String)
    ensures
        r@ == cpp_dockerfile(version@),
{
    let mut s = concat(HEADER, CPP_HEAD);
    s.append(version);
    s.append(CPP_TAIL);
    s
}

pub fn generate_go_dockerfile(version: &str) -> (r: String)
    ensures
        r@ == go_dockerfile(version@),
{
    let mut s = concat(HEADER, GO_HEAD);
    s.append(version);
    s.append(GO_TAIL);
    s
}

pub fn generate_node_dockerfile(version: &str) -> (r: String)
    ensures
        r@ == node_dockerfile(version@),
{
    let mut s = concat(HEADER, NODE_HEAD);
    s.append(version);
    s.append(NODE_TAIL);
    s
}

pub fn generate_rust_dockerfile(version: &str) -> (r: String)
    ensures
        r@ == rust_dockerfile(version@),
{
    let mut s = concat(HEADER, RUST_HEAD);
    s.append(version);
    s.append(RUST_TAIL);
    s
}

/// The Dockerfile of a language without a template of its own: the given base
/// image (`<name>:<version>` by default), its runner script, and the language's
/// name as the command.
pub open spec fn plain_dockerfile(name: Seq<char>, base: Seq<char>) -> Seq<char> {
    HEADER@ + "FROM "@ + base + "\n\nWORKDIR /app\n\n# Copy runner script (if exists) from dockerfiles/"@ + name
        + "/ (build context is repo root)\nCOPY dockerfiles/"@ + name + "/runner.* /app/\n\n# Set execution command\nCMD [\""@
        + name + "\"]\n"@
}

/// The Dockerfile for a language: the template named after it (`javascript` and
/// `node` share one), else the plain one.
pub open spec fn dockerfile_for(name: Seq<char>, version: Seq<char>, base_image: Option<Seq<char>>) -> Seq<char> {
    if name == "python"@ {
        python_dockerfile(version)
    } else if name == "java"@ {
        java_dockerfile(version)
    } else if name == "rust"@ {
        rust_dockerfile(version)
    } else if name == "cpp"@ {
        cpp_dockerfile(version)
    } else if name == "go"@ {
        go_dockerfile(version)
    } else if name == "javascript"@ || name == "node"@ {
        node_dockerfile(version)
    } else {
        plain_dockerfile(
            name,
            match base_image {
                Some(b) => b,
                None => name + ":"@ + version,
            },
        )
    }
}

pub fn generate_dockerfile(name: &str, version: &str, base_image: Option<&str>) -> (r: String)
    ensures
        r@ == dockerfile_for(
            name@,
            version@,
            match base_image {
                Some(b) => Some(b@),
                None => None,
            },
        ),
{
    let n = String::from_str(name);
    if n == String::from_str("python") {
        generate_python_dockerfile(version)
    } else if n == String::from_str("java") {
        generate_java_dockerfile(version)
    } else if n == String::from_str("rust") {
        generate_rust_dockerfile(version)
    } else if n == String::from_str("cpp") {
        generate_cpp_dockerfile(version)
    } else if n == String::from_str("go") {
        generate_go_dockerfile(version)
    } else if n == String::from_str("javascript") || n == String::from_str("node") {
        generate_node_dockerfile(version)
    } else {
        let base = match base_image {
            Some(b) => String::from_str(b),
            None => {
                let mut d = concat(name, ":");
                d.append(version);
                d
            },
        };
        let mut s = concat(HEADER, "FROM ");
        s.append(base.as_str());
        s.append("\n\nWORKDIR /app\n\n# Copy runner script (if exists) from dockerfiles/");
        s.append(name);
        s.append("/ (build context is repo root)\nCOPY dockerfiles/");
        s.append(name);
        s.append("/runner.* /app/\n\n# Set execution command\nCMD [\"");
        s.append(name);
        s.append("\"]\n");
        s
    }
}

} // verus!
