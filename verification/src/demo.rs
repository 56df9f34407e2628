//! In-memory demo data: a fixed set of environments with their packages, so the
//! interface can be tried without scanning anything.
use vstd::prelude::*;


verus! {

broadcast use vstd::string::group_string_axioms;

/// One demo environment.
pub struct DemoVenv {
    pub project: String,
    pub venv_name: String,
    pub python: String,
    pub config_files: String,
    /// (name, version) of each installed package.
    pub packages: Vec<(String, String)>,
}

fn pkg(name: &str, version: &str) -> (r: (String, String))
    ensures
        r.0@ == name@,
        r.1@ == version@,
{
    (name.to_owned(), version.to_owned())
}

fn demo(project: &str, venv_name: &str, python: &str, config_files: &str, packages: Vec<(String, String)>) -> (r: DemoVenv)
    ensures
        r.project@ == project@,
        r.venv_name@ == venv_name@,
        r.python@ == python@,
        r.config_files@ == config_files@,
        r.packages == packages,
{
    DemoVenv {
        project: project.to_owned(),
        venv_name: venv_name.to_owned(),
        python: python.to_owned(),
        config_files: config_files.to_owned(),
        packages,
    }
}

fn demo_env_0() -> (r: DemoVenv)
    ensures
        (r.project@, r.venv_name@, r.python@, r.config_files@) == demo_environments()[0],
        r.packages@.map_values(|p: (String, String)| (p.0@, p.1@)) == demo_packages()[0],
{
    demo(
        "/home/user/projects/web-dashboard",
        ".venv",
        "3.13.5",
        "requirements.txt,pyproject.toml",
        vec![
            pkg("django", "5.1.4"),
            pkg("djangorestframework", "3.15.2"),
            pkg("celery", "5.4.0"),
            pkg("redis", "5.2.1"),
            pkg("psycopg2-binary", "2.9.10"),
            pkg("gunicorn", "23.0.0"),
            pkg("whitenoise", "6.8.2"),
            pkg("django-cors-headers", "4.6.0"),
            pkg("dj-database-url", "2.3.0"),
            pkg("python-decouple", "3.8"),
            pkg("requests", "2.32.3"),
            pkg("boto3", "1.35.90"),
            pkg("Pillow", "11.1.0"),
            pkg("django-storages", "1.14.4"),
            pkg("sentry-sdk", "2.19.2"),
            pkg("pytest", "8.3.4"),
            pkg("pytest-django", "4.9.0"),
            pkg("factory-boy", "3.3.1"),
            pkg("coverage", "7.6.10"),
        ],
    )
}

fn demo_env_1() -> (r: DemoVenv)
    ensures
        (r.project@, r.venv_name@, r.python@, r.config_files@) == demo_environments()[1],
        r.packages@.map_values(|p: (String, String)| (p.0@, p.1@)) == demo_packages()[1],
{
    demo(
        "/home/user/projects/ml-pipeline",
        "venv",
        "3.12.3",
        "requirements.txt,setup.py",
        vec![
            pkg("numpy", "2.2.1"),
            pkg("pandas", "2.2.3"),
            pkg("scikit-learn", "1.6.1"),
            pkg("torch", "2.5.1"),
            pkg("transformers", "4.47.1"),
            pkg("datasets", "3.2.0"),
            pkg("accelerate", "1.2.1"),
            pkg("wandb", "0.19.1"),
            pkg("matplotlib", "3.10.0"),
            pkg("seaborn", "0.13.2"),
            pkg("scipy", "1.15.0"),
            pkg("tqdm", "4.67.1"),
            pkg("tensorboard", "2.18.0"),
            pkg("safetensors", "0.4.5"),
            pkg("tokenizers", "0.21.0"),
            pkg("pillow", "11.1.0"),
            pkg("pyyaml", "6.0.2"),
            pkg("hydra-core", "1.3.2"),
            pkg("omegaconf", "2.3.0"),
            pkg("einops", "0.8.0"),
            pkg("timm", "1.0.12"),
            pkg("lightning", "2.4.0"),
            pkg("torchvision", "0.20.1"),
        ],
    )
}

fn demo_env_2() -> (r: DemoVenv)
    ensures
        (r.project@, r.venv_name@, r.python@, r.config_files@) == demo_environments()[2],
        r.packages@.map_values(|p: (String, String)| (p.0@, p.1@)) == demo_packages()[2],
{
    demo(
        "/home/user/projects/data-analysis",
        ".venv",
        "3.13.5",
        "requirements.txt",
        vec![
            pkg("pandas", "2.2.3"),
            pkg("numpy", "2.2.1"),
            pkg("matplotlib", "3.10.0"),
            pkg("seaborn", "0.13.2"),
            pkg("jupyter", "1.1.1"),
            pkg("notebook", "7.3.2"),
            pkg("scipy", "1.15.0"),
            pkg("statsmodels", "0.14.4"),
            pkg("plotly", "5.24.1"),
            pkg("openpyxl", "3.1.5"),
            pkg("xlsxwriter", "3.2.0"),
        ],
    )
}

fn demo_env_3() -> (r: DemoVenv)
    ensures
        (r.project@, r.venv_name@, r.python@, r.config_files@) == demo_environments()[3],
        r.packages@.map_values(|p: (String, String)| (p.0@, p.1@)) == demo_packages()[3],
{
    demo(
        "/home/user/projects/api-gateway",
        ".venv",
        "3.14.0",
        "pyproject.toml",
        vec![
            pkg("fastapi", "0.115.6"),
            pkg("uvicorn", "0.34.0"),
            pkg("pydantic", "2.10.4"),
            pkg("httpx", "0.28.1"),
            pkg("sqlalchemy", "2.0.36"),
            pkg("alembic", "1.14.1"),
            pkg("python-jose", "3.3.0"),
            pkg("passlib", "1.7.4"),
            pkg("python-multipart", "0.0.20"),
            pkg("redis", "5.2.1"),
            pkg("celery", "5.4.0"),
            pkg("sentry-sdk", "2.19.2"),
            pkg("structlog", "24.4.0"),
            pkg("prometheus-client", "0.21.1"),
        ],
    )
}

fn demo_env_4() -> (r: DemoVenv)
    ensures
        (r.project@, r.venv_name@, r.python@, r.config_files@) == demo_environments()[4],
        r.packages@.map_values(|p: (String, String)| (p.0@, p.1@)) == demo_packages()[4],
{
    demo(
        "/home/user/projects/otree-experiment",
        "venv",
        "3.12.3",
        "requirements.txt",
        vec![
            pkg("otree", "5.11.4"),
            pkg("django", "4.2.16"),
            pkg("channels", "4.2.0"),
            pkg("daphne", "4.1.2"),
            pkg("huey", "2.5.2"),
            pkg("psycopg2-binary", "2.9.10"),
            pkg("sentry-sdk", "2.19.2"),
            pkg("whitenoise", "6.8.2"),
            pkg("numpy", "2.2.1"),
        ],
    )
}

fn demo_env_5() -> (r: DemoVenv)
    ensures
        (r.project@, r.venv_name@, r.python@, r.config_files@) == demo_environments()[5],
        r.packages@.map_values(|p: (String, String)| (p.0@, p.1@)) == demo_packages()[5],
{
    demo(
        "/home/user/projects/otree-experiment",
        ".venv",
        "3.13.5",
        "requirements.txt",
        vec![
            pkg("otree", "6.0.13"),
            pkg("django", "5.1.4"),
            pkg("channels", "4.2.0"),
            pkg("daphne", "4.1.2"),
            pkg("huey", "2.5.2"),
            pkg("psycopg2-binary", "2.9.10"),
            pkg("numpy", "2.2.1"),
            pkg("scipy", "1.15.0"),
            pkg("pandas", "2.2.3"),
        ],
    )
}

fn demo_env_6() -> (r: DemoVenv)
    ensures
        (r.project@, r.venv_name@, r.python@, r.config_files@) == demo_environments()[6],
        r.packages@.map_values(|p: (String, String)| (p.0@, p.1@)) == demo_packages()[6],
{
    demo(
        "/home/user/projects/cli-toolbox",
        "venv",
        "3.13.5",
        "pyproject.toml,setup.cfg",
        vec![
            pkg("click", "8.1.8"),
            pkg("rich", "13.9.4"),
            pkg("typer", "0.15.1"),
            pkg("httpx", "0.28.1"),
            pkg("pydantic", "2.10.4"),
            pkg("toml", "0.10.2"),
        ],
    )
}

fn demo_env_7() -> (r: DemoVenv)
    ensures
        (r.project@, r.venv_name@, r.python@, r.config_files@) == demo_environments()[7],
        r.packages@.map_values(|p: (String, String)| (p.0@, p.1@)) == demo_packages()[7],
{
    demo(
        "/home/user/projects/scraper-service",
        ".venv",
        "3.12.3",
        "requirements.txt",
        vec![
            pkg("scrapy", "2.12.0"),
            pkg("beautifulsoup4", "4.12.3"),
            pkg("selenium", "4.27.1"),
            pkg("playwright", "1.49.1"),
            pkg("httpx", "0.28.1"),
            pkg("parsel", "1.9.1"),
            pkg("lxml", "5.3.0"),
            pkg("fake-useragent", "2.0.3"),
            pkg("tqdm", "4.67.1"),
            pkg("sqlite-utils", "3.38"),
            pkg("datasette", "0.65.1"),
        ],
    )
}

fn demo_env_8() -> (r: DemoVenv)
    ensures
        (r.project@, r.venv_name@, r.python@, r.config_files@) == demo_environments()[8],
        r.packages@.map_values(|p: (String, String)| (p.0@, p.1@)) == demo_packages()[8],
{
    demo(
        "/home/user/research/survey-analysis",
        "venv",
        "3.13.5",
        "requirements.txt",
        vec![
            pkg("pandas", "2.2.3"),
            pkg("numpy", "2.2.1"),
            pkg("pingouin", "0.5.5"),
            pkg("scipy", "1.15.0"),
            pkg("statsmodels", "0.14.4"),
            pkg("matplotlib", "3.10.0"),
            pkg("seaborn", "0.13.2"),
            pkg("tabulate", "0.9.0"),
            pkg("openpyxl", "3.1.5"),
        ],
    )
}

fn demo_env_9() -> (r: DemoVenv)
    ensures
        (r.project@, r.venv_name@, r.python@, r.config_files@) == demo_environments()[9],
        r.packages@.map_values(|p: (String, String)| (p.0@, p.1@)) == demo_packages()[9],
{
    demo(
        "/home/user/research/agent-simulation",
        ".venv",
        "3.14.0",
        "pyproject.toml",
        vec![
            pkg("mesa", "3.1.1"),
            pkg("numpy", "2.2.1"),
            pkg("matplotlib", "3.10.0"),
            pkg("networkx", "3.4.2"),
            pkg("scipy", "1.15.0"),
            pkg("pandas", "2.2.3"),
            pkg("tqdm", "4.67.1"),
            pkg("jupyter", "1.1.1"),
            pkg("seaborn", "0.13.2"),
            pkg("plotly", "5.24.1"),
        ],
    )
}

fn demo_env_10() -> (r: DemoVenv)
    ensures
        (r.project@, r.venv_name@, r.python@, r.config_files@) == demo_environments()[10],
        r.packages@.map_values(|p: (String, String)| (p.0@, p.1@)) == demo_packages()[10],
{
    demo(
        "/home/user/projects/chatbot-service",
        ".venv",
        "3.14.0",
        "pyproject.toml,requirements.txt",
        vec![
            pkg("openai", "1.58.1"),
            pkg("anthropic", "0.42.0"),
            pkg("langchain", "0.3.14"),
            pkg("chromadb", "0.5.23"),
            pkg("tiktoken", "0.8.0"),
            pkg("fastapi", "0.115.6"),
            pkg("uvicorn", "0.34.0"),
            pkg("pydantic", "2.10.4"),
            pkg("redis", "5.2.1"),
            pkg("python-dotenv", "1.0.1"),
            pkg("structlog", "24.4.0"),
        ],
    )
}

fn demo_env_11() -> (r: DemoVenv)
    ensures
        (r.project@, r.venv_name@, r.python@, r.config_files@) == demo_environments()[11],
        r.packages@.map_values(|p: (String, String)| (p.0@, p.1@)) == demo_packages()[11],
{
    demo(
        "/home/user/teaching/intro-to-python",
        "venv",
        "3.13.5",
        "requirements.txt",
        vec![
            pkg("jupyter", "1.1.1"),
            pkg("notebook", "7.3.2"),
            pkg("numpy", "2.2.1"),
            pkg("matplotlib", "3.10.0"),
            pkg("pandas", "2.2.3"),
        ],
    )
}

fn demo_env_12() -> (r: DemoVenv)
    ensures
        (r.project@, r.venv_name@, r.python@, r.config_files@) == demo_environments()[12],
        r.packages@.map_values(|p: (String, String)| (p.0@, p.1@)) == demo_packages()[12],
{
    demo(
        "/home/user/teaching/data-science-workshop",
        "venv",
        "3.13.5",
        "requirements.txt,environment.yml",
        vec![
            pkg("jupyter", "1.1.1"),
            pkg("numpy", "2.2.1"),
            pkg("pandas", "2.2.3"),
            pkg("scikit-learn", "1.6.1"),
            pkg("matplotlib", "3.10.0"),
            pkg("seaborn", "0.13.2"),
            pkg("plotly", "5.24.1"),
            pkg("xgboost", "2.1.3"),
            pkg("lightgbm", "4.5.0"),
            pkg("shap", "0.46.0"),
        ],
    )
}

fn demo_env_13() -> (r: DemoVenv)
    ensures
        (r.project@, r.venv_name@, r.python@, r.config_files@) == demo_environments()[13],
        r.packages@.map_values(|p: (String, String)| (p.0@, p.1@)) == demo_packages()[13],
{
    demo(
        "/home/user/projects/pdf-processor",
        "venv",
        "3.12.3",
        "requirements.txt",
        vec![
            pkg("pypdf", "5.1.0"),
            pkg("reportlab", "4.2.5"),
            pkg("Pillow", "11.1.0"),
            pkg("ocrmypdf", "16.7.0"),
            pkg("click", "8.1.8"),
            pkg("tqdm", "4.67.1"),
        ],
    )
}

fn demo_env_14() -> (r: DemoVenv)
    ensures
        (r.project@, r.venv_name@, r.python@, r.config_files@) == demo_environments()[14],
        r.packages@.map_values(|p: (String, String)| (p.0@, p.1@)) == demo_packages()[14],
{
    demo(
        "/home/user/projects/monitoring-stack",
        ".venv",
        "3.14.0",
        "pyproject.toml",
        vec![
            pkg("prometheus-client", "0.21.1"),
            pkg("grafana-api", "1.0.3"),
            pkg("requests", "2.32.3"),
            pkg("pyyaml", "6.0.2"),
            pkg("click", "8.1.8"),
            pkg("structlog", "24.4.0"),
            pkg("python-dotenv", "1.0.1"),
            pkg("schedule", "1.2.2"),
        ],
    )
}

/// The environment of each demo record: project, venv name, Python version and
/// configuration files.
pub open spec fn demo_environments() -> Seq<(Seq<char>, Seq<char>, Seq<char>, Seq<char>)> {
    seq![
        ("/home/user/projects/web-dashboard"@, ".venv"@, "3.13.5"@, "requirements.txt,pyproject.toml"@),
        ("/home/user/projects/ml-pipeline"@, "venv"@, "3.12.3"@, "requirements.txt,setup.py"@),
        ("/home/user/projects/data-analysis"@, ".venv"@, "3.13.5"@, "requirements.txt"@),
        ("/home/user/projects/api-gateway"@, ".venv"@, "3.14.0"@, "pyproject.toml"@),
        ("/home/user/projects/otree-experiment"@, "venv"@, "3.12.3"@, "requirements.txt"@),
        ("/home/user/projects/otree-experiment"@, ".venv"@, "3.13.5"@, "requirements.txt"@),
        ("/home/user/projects/cli-toolbox"@, "venv"@, "3.13.5"@, "pyproject.toml,setup.cfg"@),
        ("/home/user/projects/scraper-service"@, ".venv"@, "3.12.3"@, "requirements.txt"@),
        ("/home/user/research/survey-analysis"@, "venv"@, "3.13.5"@, "requirements.txt"@),
        ("/home/user/research/agent-simulation"@, ".venv"@, "3.14.0"@, "pyproject.toml"@),
        ("/home/user/projects/chatbot-service"@, ".venv"@, "3.14.0"@, "pyproject.toml,requirements.txt"@),
        ("/home/user/teaching/intro-to-python"@, "venv"@, "3.13.5"@, "requirements.txt"@),
        ("/home/user/teaching/data-science-workshop"@, "venv"@, "3.13.5"@, "requirements.txt,environment.yml"@),
        ("/home/user/projects/pdf-processor"@, "venv"@, "3.12.3"@, "requirements.txt"@),
        ("/home/user/projects/monitoring-stack"@, ".venv"@, "3.14.0"@, "pyproject.toml"@),
    ]
}

/// The packages of each demo environment: (name, version), in the order they
/// are stored.
pub open spec fn demo_packages() -> Seq<Seq<(Seq<char>, Seq<char>)>> {
    seq![
        seq![
            ("django"@, "5.1.4"@),
            ("djangorestframework"@, "3.15.2"@),
            ("celery"@, "5.4.0"@),
            ("redis"@, "5.2.1"@),
            ("psycopg2-binary"@, "2.9.10"@),
            ("gunicorn"@, "23.0.0"@),
            ("whitenoise"@, "6.8.2"@),
            ("django-cors-headers"@, "4.6.0"@),
            ("dj-database-url"@, "2.3.0"@),
            ("python-decouple"@, "3.8"@),
            ("requests"@, "2.32.3"@),
            ("boto3"@, "1.35.90"@),
            ("Pillow"@, "11.1.0"@),
            ("django-storages"@, "1.14.4"@),
            ("sentry-sdk"@, "2.19.2"@),
            ("pytest"@, "8.3.4"@),
            ("pytest-django"@, "4.9.0"@),
            ("factory-boy"@, "3.3.1"@),
            ("coverage"@, "7.6.10"@),
        ],
        seq![
            ("numpy"@, "2.2.1"@),
            ("pandas"@, "2.2.3"@),
            ("scikit-learn"@, "1.6.1"@),
            ("torch"@, "2.5.1"@),
            ("transformers"@, "4.47.1"@),
            ("datasets"@, "3.2.0"@),
            ("accelerate"@, "1.2.1"@),
            ("wandb"@, "0.19.1"@),
            ("matplotlib"@, "3.10.0"@),
            ("seaborn"@, "0.13.2"@),
            ("scipy"@, "1.15.0"@),
            ("tqdm"@, "4.67.1"@),
            ("tensorboard"@, "2.18.0"@),
            ("safetensors"@, "0.4.5"@),
            ("tokenizers"@, "0.21.0"@),
            ("pillow"@, "11.1.0"@),
            ("pyyaml"@, "6.0.2"@),
            ("hydra-core"@, "1.3.2"@),
            ("omegaconf"@, "2.3.0"@),
            ("einops"@, "0.8.0"@),
            ("timm"@, "1.0.12"@),
            ("lightning"@, "2.4.0"@),
            ("torchvision"@, "0.20.1"@),
        ],
        seq![
            ("pandas"@, "2.2.3"@),
            ("numpy"@, "2.2.1"@),
            ("matplotlib"@, "3.10.0"@),
            ("seaborn"@, "0.13.2"@),
            ("jupyter"@, "1.1.1"@),
            ("notebook"@, "7.3.2"@),
            ("scipy"@, "1.15.0"@),
            ("statsmodels"@, "0.14.4"@),
            ("plotly"@, "5.24.1"@),
            ("openpyxl"@, "3.1.5"@),
            ("xlsxwriter"@, "3.2.0"@),
        ],
        seq![
            ("fastapi"@, "0.115.6"@),
            ("uvicorn"@, "0.34.0"@),
            ("pydantic"@, "2.10.4"@),
            ("httpx"@, "0.28.1"@),
            ("sqlalchemy"@, "2.0.36"@),
            ("alembic"@, "1.14.1"@),
            ("python-jose"@, "3.3.0"@),
            ("passlib"@, "1.7.4"@),
            ("python-multipart"@, "0.0.20"@),
            ("redis"@, "5.2.1"@),
            ("celery"@, "5.4.0"@),
            ("sentry-sdk"@, "2.19.2"@),
            ("structlog"@, "24.4.0"@),
            ("prometheus-client"@, "0.21.1"@),
        ],
        seq![
            ("otree"@, "5.11.4"@),
            ("django"@, "4.2.16"@),
            ("channels"@, "4.2.0"@),
            ("daphne"@, "4.1.2"@),
            ("huey"@, "2.5.2"@),
            ("psycopg2-binary"@, "2.9.10"@),
            ("sentry-sdk"@, "2.19.2"@),
            ("whitenoise"@, "6.8.2"@),
            ("numpy"@, "2.2.1"@),
        ],
        seq![
            ("otree"@, "6.0.13"@),
            ("django"@, "5.1.4"@),
            ("channels"@, "4.2.0"@),
            ("daphne"@, "4.1.2"@),
            ("huey"@, "2.5.2"@),
            ("psycopg2-binary"@, "2.9.10"@),
            ("numpy"@, "2.2.1"@),
            ("scipy"@, "1.15.0"@),
            ("pandas"@, "2.2.3"@),
        ],
        seq![
            ("click"@, "8.1.8"@),
            ("rich"@, "13.9.4"@),
            ("typer"@, "0.15.1"@),
            ("httpx"@, "0.28.1"@),
            ("pydantic"@, "2.10.4"@),
            ("toml"@, "0.10.2"@),
        ],
        seq![
            ("scrapy"@, "2.12.0"@),
            ("beautifulsoup4"@, "4.12.3"@),
            ("selenium"@, "4.27.1"@),
            ("playwright"@, "1.49.1"@),
            ("httpx"@, "0.28.1"@),
            ("parsel"@, "1.9.1"@),
            ("lxml"@, "5.3.0"@),
            ("fake-useragent"@, "2.0.3"@),
            ("tqdm"@, "4.67.1"@),
            ("sqlite-utils"@, "3.38"@),
            ("datasette"@, "0.65.1"@),
        ],
        seq![
            ("pandas"@, "2.2.3"@),
            ("numpy"@, "2.2.1"@),
            ("pingouin"@, "0.5.5"@),
            ("scipy"@, "1.15.0"@),
            ("statsmodels"@, "0.14.4"@),
            ("matplotlib"@, "3.10.0"@),
            ("seaborn"@, "0.13.2"@),
            ("tabulate"@, "0.9.0"@),
            ("openpyxl"@, "3.1.5"@),
        ],
        seq![
            ("mesa"@, "3.1.1"@),
            ("numpy"@, "2.2.1"@),
            ("matplotlib"@, "3.10.0"@),
            ("networkx"@, "3.4.2"@),
            ("scipy"@, "1.15.0"@),
            ("pandas"@, "2.2.3"@),
            ("tqdm"@, "4.67.1"@),
            ("jupyter"@, "1.1.1"@),
            ("seaborn"@, "0.13.2"@),
            ("plotly"@, "5.24.1"@),
        ],
        seq![
            ("openai"@, "1.58.1"@),
            ("anthropic"@, "0.42.0"@),
            ("langchain"@, "0.3.14"@),
            ("chromadb"@, "0.5.23"@),
            ("tiktoken"@, "0.8.0"@),
            ("fastapi"@, "0.115.6"@),
            ("uvicorn"@, "0.34.0"@),
            ("pydantic"@, "2.10.4"@),
            ("redis"@, "5.2.1"@),
            ("python-dotenv"@, "1.0.1"@),
            ("structlog"@, "24.4.0"@),
        ],
        seq![
            ("jupyter"@, "1.1.1"@),
            ("notebook"@, "7.3.2"@),
            ("numpy"@, "2.2.1"@),
            ("matplotlib"@, "3.10.0"@),
            ("pandas"@, "2.2.3"@),
        ],
        seq![
            ("jupyter"@, "1.1.1"@),
            ("numpy"@, "2.2.1"@),
            ("pandas"@, "2.2.3"@),
            ("scikit-learn"@, "1.6.1"@),
            ("matplotlib"@, "3.10.0"@),
            ("seaborn"@, "0.13.2"@),
            ("plotly"@, "5.24.1"@),
            ("xgboost"@, "2.1.3"@),
            ("lightgbm"@, "4.5.0"@),
            ("shap"@, "0.46.0"@),
        ],
        seq![
            ("pypdf"@, "5.1.0"@),
            ("reportlab"@, "4.2.5"@),
            ("Pillow"@, "11.1.0"@),
            ("ocrmypdf"@, "16.7.0"@),
            ("click"@, "8.1.8"@),
            ("tqdm"@, "4.67.1"@),
        ],
        seq![
            ("prometheus-client"@, "0.21.1"@),
            ("grafana-api"@, "1.0.3"@),
            ("requests"@, "2.32.3"@),
            ("pyyaml"@, "6.0.2"@),
            ("click"@, "8.1.8"@),
            ("structlog"@, "24.4.0"@),
            ("python-dotenv"@, "1.0.1"@),
            ("schedule"@, "1.2.2"@),
        ],
    ]
}

/// The demo environments, in the order they are stored, each with its packages.
pub fn demo_venvs() -> (r: Vec<DemoVenv>)
    ensures
        r@.len() == demo_environments().len(),
        demo_packages().len() == demo_environments().len(),
        forall|i: int|
            0 <= i < r@.len() ==> ((#[trigger] r@[i]).project@, r@[i].venv_name@, r@[i].python@, r@[i].config_files@)
                == demo_environments()[i]
                && r@[i].packages@.map_values(|p: (String, String)| (p.0@, p.1@)) == demo_packages()[i]
                && r@[i].packages@.len() > 0,
{
    let r = vec![
        demo_env_0(),
        demo_env_1(),
        demo_env_2(),
        demo_env_3(),
        demo_env_4(),
        demo_env_5(),
        demo_env_6(),
        demo_env_7(),
        demo_env_8(),
        demo_env_9(),
        demo_env_10(),
        demo_env_11(),
        demo_env_12(),
        demo_env_13(),
        demo_env_14(),
    ];
    proof {
        assert(r@[0].packages@.map_values(|p: (String, String)| (p.0@, p.1@)).len() == 19);
        assert(r@[1].packages@.map_values(|p: (String, String)| (p.0@, p.1@)).len() == 23);
        assert(r@[2].packages@.map_values(|p: (String, String)| (p.0@, p.1@)).len() == 11);
        assert(r@[3].packages@.map_values(|p: (String, String)| (p.0@, p.1@)).len() == 14);
        assert(r@[4].packages@.map_values(|p: (String, String)| (p.0@, p.1@)).len() == 9);
        assert(r@[5].packages@.map_values(|p: (String, String)| (p.0@, p.1@)).len() == 9);
        assert(r@[6].packages@.map_values(|p: (String, String)| (p.0@, p.1@)).len() == 6);
        assert(r@[7].packages@.map_values(|p: (String, String)| (p.0@, p.1@)).len() == 11);
        assert(r@[8].packages@.map_values(|p: (String, String)| (p.0@, p.1@)).len() == 9);
        assert(r@[9].packages@.map_values(|p: (String, String)| (p.0@, p.1@)).len() == 10);
        assert(r@[10].packages@.map_values(|p: (String, String)| (p.0@, p.1@)).len() == 11);
        assert(r@[11].packages@.map_values(|p: (String, String)| (p.0@, p.1@)).len() == 5);
        assert(r@[12].packages@.map_values(|p: (String, String)| (p.0@, p.1@)).len() == 10);
        assert(r@[13].packages@.map_values(|p: (String, String)| (p.0@, p.1@)).len() == 6);
        assert(r@[14].packages@.map_values(|p: (String, String)| (p.0@, p.1@)).len() == 8);
    }
    r
}

/// The size given to demo environment number `index`: (120 + 73 * index) MiB, so
/// that sizes differ and sort and format in varied ways.
pub fn demo_size_bytes(index: usize) -> (r: i64)
    requires
        (120 + 73 * index) * 1024 * 1024 <= i64::MAX,
    ensures
        r == (120 + 73 * index) * 1024 * 1024,
{
    assert(index <= 0x7fff_ffff_ffff) by (nonlinear_arith)
        requires
            (120 + 73 * index) * 1024 * 1024 <= i64::MAX,
    ;
    (120 + index as i64 * 73) * 1024 * 1024
}

/// The path of a demo environment: `<project>/<venv_name>`.
pub fn demo_venv_path(d: &DemoVenv) -> (r: String)
    ensures
        r@ == d.project@ + "/"@ + d.venv_name@,
{
    let mut s = d.project.clone();
    s.append("/");
    s.append(d.venv_name.as_str());
    s
}

/// The interpreter of a demo environment: `<project>/<venv_name>/bin/python`.
pub fn demo_python_executable(d: &DemoVenv) -> (r: String)
    ensures
        r@ == d.project@ + "/"@ + d.venv_name@ + "/bin/python"@,
{
    let mut s = demo_venv_path(d);
    s.append("/bin/python");
    s
}

/// The scan time recorded for every demo environment.
pub fn demo_scanned_at() -> (r: String)
    ensures
        r@ == "2026-03-27 19:30:00"@,
{
    "2026-03-27 19:30:00".to_owned()
}

/// The modification time recorded for every demo environment.
pub fn demo_last_modified() -> (r: String)
    ensures
        r@ == "2026-03-15 10:30"@,
{
    "2026-03-15 10:30".to_owned()
}

} // verus!
